//! The cross-thread screen-creation proxy.
//!
//! Window resources must be created on the loop thread, but requests may
//! come from any thread. A single replaceable sender is published when the
//! loop starts and cleared when it stops; messages sent through it join the
//! loop's own event stream and are processed on the loop thread, in send
//! order relative to each other.

use crate::engine::EngineErr;
use crate::screen::ScreenConfig;
use vstd::prelude::*;

verus! {

/// A request delivered into the loop's event stream.
#[derive(Clone, Copy, Debug, PartialEq, Eq, Structural)]
pub enum ProxyMessage {
    CreateScreen(ScreenConfig),
}

/// The proxy channel: whether a sender is published, and the messages sent
/// but not yet processed, oldest first.
pub struct LoopProxy {
    open: bool,
    pending: Vec<ProxyMessage>,
}

impl View for LoopProxy {
    type V = Seq<ProxyMessage>;

    closed spec fn view(&self) -> Seq<ProxyMessage> {
        self.pending@
    }
}

impl LoopProxy {
    /// Whether a sender is published, which is exactly while the loop runs.
    pub closed spec fn spec_open(&self) -> bool {
        self.open
    }

    /// The channel before any loop has started: no sender, nothing pending.
    pub fn new() -> (p: Self)
        ensures
            !p.spec_open(),
            p@ == Seq::<ProxyMessage>::empty(),
    {
        Self { open: false, pending: Vec::new() }
    }

    /// Publish the sender, as the loop does when it starts.
    pub fn publish(&mut self)
        ensures
            final(self).spec_open(),
            final(self)@ == old(self)@,
    {
        self.open = true;
    }

    /// Clear the sender, as the loop does when it stops. What was pending is
    /// discarded with it.
    pub fn clear(&mut self)
        ensures
            !final(self).spec_open(),
            final(self)@ == Seq::<ProxyMessage>::empty(),
    {
        self.open = false;
        self.pending.clear();
    }

    /// Take the oldest pending message for processing on the loop thread.
    pub fn next_message(&mut self) -> (m: Option<ProxyMessage>)
        ensures
            final(self).spec_open() == old(self).spec_open(),
            old(self)@.len() == 0 ==> m is None && final(self)@ == old(self)@,
            old(self)@.len() > 0 ==> m == Some(old(self)@[0]) && final(self)@ == old(
                self,
            )@.drop_first(),
    {
        if self.pending.len() == 0 {
            None
        } else {
            let m = self.pending.remove(0);
            proof {
                assert(self.pending@ =~= old(self).pending@.drop_first());
            }
            Some(m)
        }
    }
}

/// Whether a sender is currently published.
pub fn get_loop_proxy(proxy: &LoopProxy) -> (r: Result<(), EngineErr>)
    ensures
        r is Ok <==> proxy.spec_open(),
        r matches Err(e) ==> e@ == crate::engine::not_running_message(),
{
    if proxy.open {
        Ok(())
    } else {
        Err(EngineErr::not_running())
    }
}

/// Send one message through the proxy: refused exactly when no sender is
/// published (no loop is running), else enqueued after everything already
/// pending.
pub fn send_proxy_message(proxy: &mut LoopProxy, message: ProxyMessage) -> (r: Result<
    (),
    EngineErr,
>)
    ensures
        final(proxy).spec_open() == old(proxy).spec_open(),
        r is Ok <==> old(proxy).spec_open(),
        old(proxy).spec_open() ==> final(proxy)@ == old(proxy)@.push(message),
        !old(proxy).spec_open() ==> final(proxy)@ == old(proxy)@,
        r matches Err(e) ==> e@ == crate::engine::not_running_message(),
{
    match get_loop_proxy(proxy) {
        Ok(_) => {
            proxy.pending.push(message);
            Ok(())
        },
        Err(e) => Err(e),
    }
}

/// Law: two messages sent in order through one open proxy stand in the
/// pending stream in that order, so the loop thread, which takes from the
/// front, processes the first-sent one first.
pub proof fn lemma_send_order_preserved(p: Seq<ProxyMessage>, a: ProxyMessage, b: ProxyMessage)
    ensures
        ({
            let q = p.push(a).push(b);
            &&& q[p.len() as int] == a
            &&& q[p.len() as int + 1] == b
        }),
{
}

/// Law: taking messages from the front never reorders what remains; after a
/// message is processed, every message sent later keeps its relative place.
pub proof fn lemma_processing_keeps_order(q: Seq<ProxyMessage>, i: int, j: int)
    requires
        q.len() > 0,
        1 <= i < j < q.len(),
    ensures
        q.drop_first()[i - 1] == q[i],
        q.drop_first()[j - 1] == q[j],
        i - 1 < j - 1,
{
}

} // verus!
