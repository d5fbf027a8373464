//! Error accounting for the flat call boundary.
//!
//! Failures are never thrown across the boundary. Each failure's formatted
//! message is stripped of terminal escape decorations, given a fresh message
//! id, and handed to the registered dispatcher (or to the diagnostic stream
//! when none is registered), while the calling thread's error counter is
//! incremented. A boundary call reads and resets its thread's counter as it
//! returns.

use vstd::prelude::*;

verus! {

/// The reserved id value that means "no message": never issued.
pub const ABSENT_ERR_MESSAGE_ID: usize = 0;

/// Identifier of one dispatched error message: process-wide, monotonically
/// increasing, never reused, never equal to `ABSENT_ERR_MESSAGE_ID`.
#[derive(Clone, Copy, Debug, PartialEq, Eq, Structural)]
pub struct ErrMessageId(pub usize);

/// Per-thread error counter. The process keeps one for each thread; a value
/// of this type is owned by the thread whose errors it counts, so dispatches
/// on other threads never touch it.
pub struct ThreadErrorCounter {
    pub count: usize,
}

/// The count a counter holds after one more dispatched error.
pub open spec fn spec_counted(count: nat) -> nat {
    count + 1
}

/// The count a counter holds after `e` more dispatched errors.
pub open spec fn count_after_dispatches(start: nat, e: nat) -> nat
    decreases e,
{
    if e == 0 {
        start
    } else {
        spec_counted(count_after_dispatches(start, (e - 1) as nat))
    }
}

impl ThreadErrorCounter {
    /// A fresh counter, as a thread starts with.
    pub fn new() -> (c: Self)
        ensures
            c.count == 0,
    {
        Self { count: 0 }
    }
}

/// Increment the counter and get the incremented value.
pub fn increment_tls_err_count(counter: &mut ThreadErrorCounter) -> (n: usize)
    requires
        old(counter).count < usize::MAX,
    ensures
        final(counter).count == spec_counted(old(counter).count as nat),
        n == final(counter).count,
{
    counter.count = counter.count + 1;
    counter.count
}

/// Reset the counter and get the value it held before the reset.
pub fn reset_tls_err_count(counter: &mut ThreadErrorCounter) -> (n: usize)
    ensures
        final(counter).count == 0,
        n == old(counter).count,
{
    let n = counter.count;
    counter.count = 0;
    n
}

/// Process-wide error hub: the single dispatcher slot and the message-id
/// generator. Shared between threads in a process (behind a lock there);
/// here an explicit value.
pub struct ErrorHub {
    /// Whether a dispatcher has been registered for error messages.
    pub dispatcher_registered: bool,
    /// The id the next dispatched message will carry.
    pub next_id: usize,
    /// All ids issued so far, in order of issue.
    pub issued: Ghost<Seq<usize>>,
}

impl ErrorHub {
    /// Well-formedness: ids are issued in strictly increasing order, starting
    /// from 1, and the next id is above every issued one.
    pub open spec fn wf(&self) -> bool {
        &&& 1 <= self.next_id
        &&& forall|i: int| 0 <= i < self.issued@.len() ==> 1 <= #[trigger] self.issued@[i]
        &&& forall|i: int| 0 <= i < self.issued@.len() ==> #[trigger] self.issued@[i] < self.next_id
        &&& forall|i: int, j: int|
            0 <= i < j < self.issued@.len() ==> #[trigger] self.issued@[i] < #[trigger] self.issued@[j]
    }

    /// A fresh hub: no dispatcher, no id issued yet.
    pub fn new() -> (h: Self)
        ensures
            h.wf(),
            !h.dispatcher_registered,
            h.next_id == 1,
            h.issued@ == Seq::<usize>::empty(),
    {
        Self { dispatcher_registered: false, next_id: 1, issued: Ghost(Seq::empty()) }
    }
}

/// Record that a dispatcher is now registered. The dispatcher itself is a
/// host-supplied callback held outside this state machine; the hub tracks
/// only its presence, which decides where messages go.
pub fn set_err_dispatcher(hub: &mut ErrorHub)
    ensures
        final(hub).dispatcher_registered,
        final(hub).next_id == old(hub).next_id,
        final(hub).issued == old(hub).issued,
{
    hub.dispatcher_registered = true;
}

/// Whether a dispatcher is registered.
pub fn get_err_dispatcher(hub: &ErrorHub) -> (registered: bool)
    ensures
        registered == hub.dispatcher_registered,
{
    hub.dispatcher_registered
}

/// Issue a fresh message id: the current `next_id`, never to be issued again.
pub fn generate_message_id(hub: &mut ErrorHub) -> (id: ErrMessageId)
    requires
        old(hub).wf(),
        old(hub).next_id < usize::MAX,
    ensures
        final(hub).wf(),
        id.0 == old(hub).next_id,
        final(hub).next_id == old(hub).next_id + 1,
        final(hub).issued@ == old(hub).issued@.push(id.0),
        final(hub).dispatcher_registered == old(hub).dispatcher_registered,
{
    let id = ErrMessageId(hub.next_id);
    hub.next_id = hub.next_id + 1;
    proof {
        hub.issued@ = hub.issued@.push(id.0);
    }
    id
}

/// Law: the message ids issued by one hub are pairwise distinct, and none of
/// them equals the reserved absent value.
pub proof fn lemma_issued_ids_distinct(hub: ErrorHub)
    requires
        hub.wf(),
    ensures
        forall|i: int, j: int|
            0 <= i < j < hub.issued@.len() ==> #[trigger] hub.issued@[i] != #[trigger] hub.issued@[j],
        forall|i: int| 0 <= i < hub.issued@.len() ==> #[trigger] hub.issued@[i] != ABSENT_ERR_MESSAGE_ID,
{
}

/// Law: a boundary call that begins with a fresh counter and dispatches `e`
/// errors on its thread ends with its counter holding exactly `e`; that is
/// the number its envelope reports before the counter is reset for the next
/// call.
pub proof fn lemma_call_reports_its_own_errors(e: nat)
    ensures
        count_after_dispatches(0, e) == e,
    decreases e,
{
    if e > 0 {
        lemma_call_reports_its_own_errors((e - 1) as nat);
    }
}

/// A parameter character of a terminal escape decoration: a digit or `;`.
pub open spec fn is_csi_param(c: char) -> bool {
    c == ';' || ('0' <= c && c <= '9')
}

/// Length of the run of parameter characters starting at `i`.
pub open spec fn param_run_len(s: Seq<char>, i: int) -> nat
    decreases s.len() - i,
{
    if 0 <= i < s.len() && is_csi_param(s[i]) {
        1 + param_run_len(s, i + 1)
    } else {
        0
    }
}

/// Length of the escape decoration starting at `i`, or 0 when none starts
/// there. A decoration is `ESC` `[`, a run of digits and `;`, then `m`.
pub open spec fn ansi_match_len(s: Seq<char>, i: int) -> nat {
    if 0 <= i && i + 1 < s.len() && s[i] == '\u{1b}' && s[i + 1] == '[' {
        let p = param_run_len(s, i + 2);
        if i + 2 + p < s.len() && s[i + 2 + p] == 'm' {
            (p + 3) as nat
        } else {
            0
        }
    } else {
        0
    }
}

proof fn lemma_param_run_len_bound(s: Seq<char>, i: int)
    requires
        0 <= i <= s.len(),
    ensures
        i + param_run_len(s, i) <= s.len(),
    decreases s.len() - i,
{
    if i < s.len() && is_csi_param(s[i]) {
        lemma_param_run_len_bound(s, i + 1);
    }
}

/// The text with every terminal escape decoration removed, scanning left to
/// right and removing each leftmost decoration in turn.
pub open spec fn strip_ansi(s: Seq<char>) -> Seq<char>
    decreases s.len(),
    when s.len() >= 0
    via strip_ansi_decreases
{
    if s.len() == 0 {
        Seq::empty()
    } else {
        let m = ansi_match_len(s, 0);
        if m > 0 {
            strip_ansi(s.skip(m as int))
        } else {
            seq![s[0]] + strip_ansi(s.skip(1))
        }
    }
}

#[via_fn]
proof fn strip_ansi_decreases(s: Seq<char>) {
    if s.len() > 0 {
        let m = ansi_match_len(s, 0);
        if m > 0 {
            lemma_param_run_len_bound(s, 2);
        }
    }
}

/// Relies on regex: `Regex::new` compiles the fixed pattern
/// `ESC \[ [0-9;]* m` for terminal escape decorations, and
/// `Regex::replace_all` with an empty replacement removes every leftmost
/// non-overlapping match of it, which is exactly what `strip_ansi` states.
#[verifier::external_body]
fn strip_ansi_codes(s: &str) -> (r: String)
    ensures
        r@ == strip_ansi(s@),
{
    let pattern = regex::Regex::new("\u{1b}\\[[0-9;]*m").unwrap();
    pattern.replace_all(s, "").into_owned()
}

/// What became of one dispatched error message.
pub enum ErrorDelivery {
    /// Handed to the registered dispatcher.
    Dispatched { id: ErrMessageId, message: String },
    /// No dispatcher was registered: written to the diagnostic stream.
    Diagnostic { id: ErrMessageId, message: String },
}

impl ErrorDelivery {
    /// The id the message carries.
    pub open spec fn spec_id(&self) -> usize {
        match self {
            ErrorDelivery::Dispatched { id, .. } => id.0,
            ErrorDelivery::Diagnostic { id, .. } => id.0,
        }
    }

    /// The message text.
    pub open spec fn spec_message(&self) -> Seq<char> {
        match self {
            ErrorDelivery::Dispatched { message, .. } => message@,
            ErrorDelivery::Diagnostic { message, .. } => message@,
        }
    }
}

/// Dispatch one error on the calling thread: strip terminal escape
/// decorations from the formatted message, count the error on this thread,
/// issue a fresh id, and say where the message goes. The caller performs the
/// returned delivery; this state machine fixes its id, text and target.
pub fn dispatch_err(
    hub: &mut ErrorHub,
    counter: &mut ThreadErrorCounter,
    err: &str,
) -> (delivery: ErrorDelivery)
    requires
        old(hub).wf(),
        old(hub).next_id < usize::MAX,
        old(counter).count < usize::MAX,
    ensures
        final(hub).wf(),
        final(counter).count == spec_counted(old(counter).count as nat),
        delivery.spec_id() == old(hub).next_id,
        delivery.spec_message() == strip_ansi(err@),
        delivery is Dispatched <==> old(hub).dispatcher_registered,
        final(hub).next_id == old(hub).next_id + 1,
        final(hub).issued@ == old(hub).issued@.push(delivery.spec_id()),
        final(hub).dispatcher_registered == old(hub).dispatcher_registered,
{
    let message = strip_ansi_codes(err);
    increment_tls_err_count(counter);
    let id = generate_message_id(hub);
    if get_err_dispatcher(hub) {
        ErrorDelivery::Dispatched { id, message }
    } else {
        ErrorDelivery::Diagnostic { id, message }
    }
}

} // verus!
