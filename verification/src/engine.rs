//! Engine state machine and event dispatcher.
//!
//! Exactly one engine exists per process, either stopped or running the
//! cooperative event loop on the thread that started it. While running, it
//! owns the screen registry and the cross-thread creation proxy, routes
//! window events to the matching screen's host callbacks, and negotiates
//! window close with the host. The loop exits once the registry empties.
//!
//! The host's callbacks are performed outside this state machine: each
//! dispatching function returns the calls the host is owed, in order, and
//! the host's answers come back as arguments of the follow-up functions.

use crate::envelope::ApiResult;
use crate::error_handler::{
    dispatch_err, reset_tls_err_count, ErrorDelivery, ErrorHub, ThreadErrorCounter,
};
use crate::input::{ImeInputData, MouseButton};
use crate::keycode::KeyCode;
use crate::proxy::{send_proxy_message, LoopProxy, ProxyMessage};
use crate::registry::{
    get_screen, push_screen, remove_screen, spec_swap_removed, ScreenIdData, ScreenRegistry,
};
use crate::screen::{NativeWindowId, ScreenConfig, ScreenId};
use vstd::prelude::*;

verus! {

/// An error of the engine state machine, carrying a static message.
///
/// Its view is the message text.
#[derive(Clone, Copy, Debug)]
pub struct EngineErr {
    message: &'static str,
}

impl View for EngineErr {
    type V = Seq<char>;

    closed spec fn view(&self) -> Seq<char> {
        self.message@
    }
}

/// The message of the error returned when an operation needs a running engine.
pub open spec fn not_running_message() -> Seq<char> {
    "The engine is not running"@
}

/// The message of the error returned when `start` finds the engine running.
pub open spec fn already_running_message() -> Seq<char> {
    "The engine is already running"@
}

impl EngineErr {
    pub fn new(message: &'static str) -> (e: Self)
        ensures
            e@ == message@,
    {
        Self { message }
    }

    /// The error for an operation that needs a running engine.
    pub fn not_running() -> (e: Self)
        ensures
            e@ == not_running_message(),
    {
        Self::new("The engine is not running")
    }

    /// The error for a `start` attempted while the engine is running.
    pub fn already_running() -> (e: Self)
        ensures
            e@ == already_running_message(),
    {
        Self::new("The engine is already running")
    }

    /// The message text of this error.
    pub fn message(&self) -> (m: &'static str)
        ensures
            m@ == self@,
    {
        self.message
    }
}

/// How the loop waits for its next event.
#[derive(Clone, Copy, Debug, PartialEq, Eq, Structural)]
pub enum LoopControlFlow {
    /// Block until an event arrives.
    Wait,
    /// Spin for events as fast as possible.
    Poll,
}

/// The loop's poll/wait tuning: some platforms misbehave with text-input
/// methods unless the loop waits during its first events and polls only
/// after. The length of that initial phase is configuration, not a fixed
/// constant.
#[derive(Clone, Copy, Debug, PartialEq, Eq, Structural)]
pub struct PollTuning {
    /// How many events the initial waiting phase lasts.
    pub wait_event_count: usize,
}

impl PollTuning {
    /// What the loop sets its control flow to before handling event number
    /// `i` (counted from 0): wait during the first event, poll from the end
    /// of the waiting phase on, and leave it alone in between.
    pub fn control_flow_update(&self, i: usize) -> (r: Option<LoopControlFlow>)
        ensures
            i == self.wait_event_count ==> r == Some(LoopControlFlow::Poll),
            i == 0 && i != self.wait_event_count ==> r == Some(LoopControlFlow::Wait),
            i != 0 && i != self.wait_event_count ==> r is None,
    {
        if i == self.wait_event_count {
            Some(LoopControlFlow::Poll)
        } else if i == 0 {
            Some(LoopControlFlow::Wait)
        } else {
            None
        }
    }
}

/// A mouse wheel movement: a scroll in lines, or a touchpad movement in
/// pixels. The line amounts are IEEE-754 single-precision bit patterns,
/// carried untouched to the host.
#[derive(Clone, Copy, Debug, PartialEq, Eq, Structural)]
pub enum WheelDelta {
    Line { x_delta_bits: u32, y_delta_bits: u32 },
    Pixel,
}

/// A window event of the platform's event stream, as plain values. The
/// cursor positions and wheel amounts are IEEE-754 bit patterns, carried
/// untouched to the host.
#[derive(Debug, PartialEq, Eq)]
pub enum WindowEventData {
    CursorEntered,
    CursorLeft,
    CursorMoved { x_bits: u32, y_bits: u32 },
    Ime(ImeInputData),
    CharReceived(char),
    MouseWheel { delta: WheelDelta, moved_phase: bool },
    MouseInput { button: MouseButton, pressed: bool },
    CloseRequested,
    KeyboardInput { key: KeyCode, pressed: bool },
    Resized { width: u32, height: u32 },
    ScaleFactorChanged { width: u32, height: u32 },
    RedrawRequested,
    Other,
}

/// One call the host is owed, in the order the calls are returned.
#[derive(Debug, PartialEq, Eq)]
pub enum HostCall {
    /// `on_cleared(id)`: an idle tick reached this live screen.
    Cleared(ScreenId),
    /// `on_redraw_requested(id)`: the host answers through `redraw_reply`.
    RedrawRequested(ScreenId),
    Resized(ScreenId, u32, u32),
    Keyboard(ScreenId, KeyCode, bool),
    CharReceived(ScreenId, char),
    MouseButtonInput(ScreenId, MouseButton, bool),
    Ime(ScreenId, ImeInputData),
    /// Wheel amounts as IEEE-754 single-precision bit patterns.
    Wheel(ScreenId, u32, u32),
    /// Cursor position as IEEE-754 single-precision bit patterns.
    CursorMoved(ScreenId, u32, u32),
    CursorEnteredLeft(ScreenId, bool),
    /// `on_closing(id, &mut cancel)`: the host answers through `close_reply`.
    Closing(ScreenId),
    /// `on_closed(id)`: ownership of the screen returns to the host; its
    /// registry entry is already gone when this call is handed back.
    Closed(ScreenId),
}

/// The calls a window event earns the screen it concerns.
pub open spec fn event_calls(screen_id: ScreenId, event: WindowEventData) -> Seq<HostCall> {
    match event {
        WindowEventData::CursorEntered => seq![HostCall::CursorEnteredLeft(screen_id, true)],
        WindowEventData::CursorLeft => seq![HostCall::CursorEnteredLeft(screen_id, false)],
        WindowEventData::CursorMoved { x_bits, y_bits } => seq![
            HostCall::CursorMoved(screen_id, x_bits, y_bits),
        ],
        WindowEventData::Ime(data) => seq![HostCall::Ime(screen_id, data)],
        WindowEventData::CharReceived(c) => seq![HostCall::CharReceived(screen_id, c)],
        WindowEventData::MouseWheel { delta, moved_phase } => {
            if moved_phase {
                match delta {
                    WheelDelta::Line { x_delta_bits, y_delta_bits } => seq![
                        HostCall::Wheel(screen_id, x_delta_bits, y_delta_bits),
                    ],
                    WheelDelta::Pixel => Seq::empty(),
                }
            } else {
                Seq::empty()
            }
        },
        WindowEventData::MouseInput { button, pressed } => seq![
            HostCall::MouseButtonInput(screen_id, button, pressed),
        ],
        WindowEventData::CloseRequested => seq![HostCall::Closing(screen_id)],
        WindowEventData::KeyboardInput { key, pressed } => seq![
            HostCall::Keyboard(screen_id, key, pressed),
        ],
        WindowEventData::Resized { width, height } => seq![
            HostCall::Resized(screen_id, width, height),
        ],
        WindowEventData::ScaleFactorChanged { width, height } => seq![
            HostCall::Resized(screen_id, width, height),
        ],
        WindowEventData::RedrawRequested => seq![HostCall::RedrawRequested(screen_id)],
        WindowEventData::Other => Seq::empty(),
    }
}

/// A sequence of entries with the first occurrence of `d` swap-removed, or
/// the sequence itself when `d` is not there.
pub open spec fn spec_remove_entry(s: Seq<ScreenIdData>, d: ScreenIdData) -> Seq<ScreenIdData> {
    if exists|i: int| 0 <= i < s.len() && s[i] == d {
        spec_swap_removed(s, choose|i: int| 0 <= i < s.len() && s[i] == d)
    } else {
        s
    }
}

/// The engine: the state machine of the whole lifecycle.
pub struct Engine {
    pub running: bool,
    pub registry: ScreenRegistry,
    pub proxy: LoopProxy,
}

impl Engine {
    /// Whether the loop is running.
    pub open spec fn spec_running(&self) -> bool {
        self.running
    }

    /// Well-formedness: the registry keeps its uniqueness invariant, the
    /// proxy sender is published exactly while the loop runs, and a stopped
    /// engine has no live screen and nothing pending.
    pub open spec fn wf(&self) -> bool {
        &&& self.registry.wf()
        &&& self.spec_running() <==> self.proxy.spec_open()
        &&& !self.spec_running() ==> self.registry@.len() == 0 && self.proxy@.len() == 0
    }

    /// A stopped engine, as the process starts with.
    pub fn new() -> (e: Self)
        ensures
            e.wf(),
            !e.spec_running(),
    {
        Self { running: false, registry: ScreenRegistry::new(), proxy: LoopProxy::new() }
    }

    /// Whether the loop is running.
    pub fn is_running(&self) -> (r: bool)
        ensures
            r == self.spec_running(),
    {
        self.running
    }

    /// Begin a run: refused with `ALREADY_RUNNING` while a loop is running,
    /// and the running engine is left untouched. Otherwise the engine enters
    /// the running state, publishes the proxy sender, and queues the
    /// construction of the initial screen; the caller then drives the loop
    /// until `finish`.
    pub fn start(&mut self, initial_config: ScreenConfig) -> (r: Result<(), EngineErr>)
        requires
            old(self).wf(),
        ensures
            final(self).wf(),
            old(self).spec_running() ==> {
                &&& r is Err
                &&& *final(self) == *old(self)
            },
            r matches Err(e) ==> e@ == already_running_message(),
            !old(self).spec_running() ==> {
                &&& r is Ok
                &&& final(self).spec_running()
                &&& final(self).registry@ == old(self).registry@
                &&& final(self).proxy@ == seq![ProxyMessage::CreateScreen(initial_config)]
            },
    {
        if self.running {
            return Err(EngineErr::already_running());
        }
        self.running = true;
        self.proxy.publish();
        let sent = send_proxy_message(&mut self.proxy, ProxyMessage::CreateScreen(initial_config));
        proof {
            assert(sent is Ok);
            assert(self.proxy@ =~= seq![ProxyMessage::CreateScreen(initial_config)]);
        }
        Ok(())
    }

    /// End a run: back to the stopped state, with the proxy sender cleared.
    /// Also the path out of a start whose initial screen construction
    /// failed: no partly running state survives.
    pub fn finish(&mut self)
        requires
            old(self).wf(),
            old(self).registry@.len() == 0,
        ensures
            final(self).wf(),
            !final(self).spec_running(),
            final(self).registry@ == old(self).registry@,
    {
        self.running = false;
        self.proxy.clear();
    }

    /// Take the oldest cross-thread request for processing on the loop
    /// thread.
    pub fn take_create_request(&mut self) -> (m: Option<ScreenConfig>)
        requires
            old(self).wf(),
        ensures
            final(self).wf(),
            final(self).spec_running() == old(self).spec_running(),
            final(self).registry@ == old(self).registry@,
            old(self).proxy@.len() == 0 ==> m is None && final(self).proxy@ == old(self).proxy@,
            old(self).proxy@.len() > 0 ==> {
                &&& old(self).proxy@[0] matches ProxyMessage::CreateScreen(c) && m == Some(c)
                &&& final(self).proxy@ == old(self).proxy@.drop_first()
            },
    {
        match self.proxy.next_message() {
            Some(ProxyMessage::CreateScreen(config)) => Some(config),
            None => None,
        }
    }

    /// Register a screen that construction and `on_screen_init` produced:
    /// the native identity of its new window and the id the host returned.
    /// Both are new, as `push_screen` demands.
    pub fn register_screen(&mut self, window_id: NativeWindowId, screen_id: ScreenId)
        requires
            old(self).wf(),
            old(self).spec_running(),
            !old(self).registry.spec_contains_window(window_id),
            !old(self).registry.spec_contains_screen(screen_id),
        ensures
            final(self).wf(),
            final(self).spec_running(),
            final(self).registry@ == old(self).registry@.push(
                ScreenIdData(window_id, screen_id),
            ),
            final(self).proxy@ == old(self).proxy@,
    {
        push_screen(&mut self.registry, ScreenIdData(window_id, screen_id));
    }

    /// Route one window event: find the screen with that native identity and
    /// return the calls the host is owed for it, none when no live screen
    /// matches. The engine itself is unchanged; answers that change it
    /// (close negotiation, redraw refusal) come back through `close_reply`
    /// and `redraw_reply`.
    pub fn window_event(&self, window_id: NativeWindowId, event: WindowEventData) -> (r: (
        Option<ScreenIdData>,
        Vec<HostCall>,
    ))
        ensures
            ({
                let (target, calls) = r;
                match target {
                    Some(d) => self.registry@.contains(d) && d.0 == window_id && calls@
                        == event_calls(d.1, event),
                    None => !self.registry.spec_contains_window(window_id) && calls@
                        == Seq::<HostCall>::empty(),
                }
            }),
    {
        let target = get_screen(&self.registry, &window_id);
        let mut calls: Vec<HostCall> = Vec::new();
        let d = match target {
            Some(d) => d,
            None => {
                return (None, calls);
            },
        };
        let screen_id = d.1;
        match event {
            WindowEventData::CursorEntered => {
                calls.push(HostCall::CursorEnteredLeft(screen_id, true));
            },
            WindowEventData::CursorLeft => {
                calls.push(HostCall::CursorEnteredLeft(screen_id, false));
            },
            WindowEventData::CursorMoved { x_bits, y_bits } => {
                calls.push(HostCall::CursorMoved(screen_id, x_bits, y_bits));
            },
            WindowEventData::Ime(data) => {
                calls.push(HostCall::Ime(screen_id, data));
            },
            WindowEventData::CharReceived(c) => {
                calls.push(HostCall::CharReceived(screen_id, c));
            },
            WindowEventData::MouseWheel { delta, moved_phase } => {
                if moved_phase {
                    match delta {
                        WheelDelta::Line { x_delta_bits, y_delta_bits } => {
                            calls.push(HostCall::Wheel(screen_id, x_delta_bits, y_delta_bits));
                        },
                        WheelDelta::Pixel => {},
                    }
                }
            },
            WindowEventData::MouseInput { button, pressed } => {
                calls.push(HostCall::MouseButtonInput(screen_id, button, pressed));
            },
            WindowEventData::CloseRequested => {
                calls.push(HostCall::Closing(screen_id));
            },
            WindowEventData::KeyboardInput { key, pressed } => {
                calls.push(HostCall::Keyboard(screen_id, key, pressed));
            },
            WindowEventData::Resized { width, height } => {
                calls.push(HostCall::Resized(screen_id, width, height));
            },
            WindowEventData::ScaleFactorChanged { width, height } => {
                calls.push(HostCall::Resized(screen_id, width, height));
            },
            WindowEventData::RedrawRequested => {
                calls.push(HostCall::RedrawRequested(screen_id));
            },
            WindowEventData::Other => {},
        }
        (Some(d), calls)
    }

    /// The host answered `on_redraw_requested`: `true` keeps the screen as
    /// it is; `false` enters close negotiation, exactly as a platform close
    /// request does.
    pub fn redraw_reply(&self, target: ScreenIdData, continue_next: bool) -> (calls: Vec<HostCall>)
        ensures
            continue_next ==> calls@ == Seq::<HostCall>::empty(),
            !continue_next ==> calls@ == seq![HostCall::Closing(target.1)],
    {
        let mut calls: Vec<HostCall> = Vec::new();
        if !continue_next {
            calls.push(HostCall::Closing(target.1));
        }
        calls
    }

    /// The host answered `on_closing`. With `cancel` the screen stays
    /// registered and untouched and no further call is owed. Without it the
    /// entry leaves the registry first, then exactly one `Closed` call is
    /// handed back, and the loop is told to exit when the registry is now
    /// empty.
    pub fn close_reply(&mut self, target: ScreenIdData, cancel: bool) -> (r: (
        Vec<HostCall>,
        bool,
    ))
        requires
            old(self).wf(),
        ensures
            final(self).wf(),
            final(self).spec_running() == old(self).spec_running(),
            final(self).proxy@ == old(self).proxy@,
            ({
                let (calls, exit) = r;
                &&& cancel ==> {
                    &&& *final(self) == *old(self)
                    &&& calls@ == Seq::<HostCall>::empty()
                    &&& !exit
                }
                &&& !cancel ==> {
                    &&& final(self).registry@ == spec_remove_entry(old(self).registry@, target)
                    &&& !final(self).registry@.contains(target)
                    &&& old(self).registry@.contains(target) ==> final(self).registry@.len() == old(
                        self,
                    ).registry@.len() - 1
                    &&& !old(self).registry@.contains(target) ==> final(self).registry@ == old(
                        self,
                    ).registry@
                    &&& forall|d: ScreenIdData|
                        d != target ==> (final(self).registry@.contains(d) <==> old(
                            self,
                        ).registry@.contains(d))
                    &&& calls@ == seq![HostCall::Closed(target.1)]
                    &&& (exit <==> final(self).registry@.len() == 0)
                }
            }),
    {
        let mut calls: Vec<HostCall> = Vec::new();
        if cancel {
            return (calls, false);
        }
        let mut is_empty = false;
        remove_screen(&mut self.registry, target, &mut is_empty);
        proof {
            if old(self).registry@.contains(target) {
                let idx_have = choose|i: int|
                    0 <= i < old(self).registry@.len() && old(self).registry@[i] == target
                        && self.registry@ == spec_swap_removed(old(self).registry@, i);
                let idx_spec = choose|i: int|
                    0 <= i < old(self).registry@.len() && old(self).registry@[i] == target;
                if idx_have != idx_spec {
                    crate::registry::lemma_registry_identities_unique(old(self).registry);
                    assert(old(self).registry@[idx_have].0 == old(self).registry@[idx_spec].0);
                    assert(false);
                }
            }
        }
        calls.push(HostCall::Closed(target.1));
        (calls, is_empty)
    }

    /// One `Cleared` call per live screen, each exactly once, in registry
    /// order: what an idle tick owes the host.
    pub fn cleared_calls(&self) -> (calls: Vec<HostCall>)
        ensures
            calls@.len() == self.registry@.len(),
            forall|i: int|
                0 <= i < calls@.len() ==> #[trigger] calls@[i] == HostCall::Cleared(
                    self.registry@[i].1,
                ),
    {
        let n = self.registry.len();
        let mut calls: Vec<HostCall> = Vec::new();
        let mut i: usize = 0;
        while i < n
            invariant
                0 <= i <= n == self.registry@.len(),
                calls@.len() == i,
                forall|k: int|
                    0 <= k < i ==> #[trigger] calls@[k] == HostCall::Cleared(self.registry@[k].1),
            decreases n - i,
        {
            let d = self.registry.entry_at(i);
            calls.push(HostCall::Cleared(d.1));
            i = i + 1;
        }
        calls
    }
}

/// Law: closing the last registered screen, uncancelled, empties the
/// registry, and `close_reply` then tells the loop to exit, which returns
/// `start` to its caller.
pub proof fn lemma_closing_last_screen_exits(s: Seq<ScreenIdData>, target: ScreenIdData)
    requires
        s.len() == 1,
        s[0] == target,
    ensures
        spec_remove_entry(s, target).len() == 0,
{
    assert(s.contains(target));
}

/// The boundary call that requests a screen from any thread: enqueue the
/// request when the loop runs; otherwise dispatch a `NOT_RUNNING` error.
/// Either way the envelope reports the errors counted on this thread during
/// the call, and the caller performs the returned delivery, if any.
pub fn create_screen(
    engine: &mut Engine,
    hub: &mut ErrorHub,
    counter: &mut ThreadErrorCounter,
    config: ScreenConfig,
) -> (r: (ApiResult, Option<ErrorDelivery>))
    requires
        old(engine).wf(),
        old(hub).wf(),
        old(hub).next_id < usize::MAX,
        old(counter).count < usize::MAX,
    ensures
        final(engine).wf(),
        final(hub).wf(),
        final(counter).count == 0,
        final(engine).spec_running() == old(engine).spec_running(),
        final(engine).registry@ == old(engine).registry@,
        old(engine).spec_running() ==> {
            &&& final(engine).proxy@ == old(engine).proxy@.push(ProxyMessage::CreateScreen(config))
            &&& r.0.err_count == old(counter).count
            &&& r.1 is None
            &&& *final(hub) == *old(hub)
        },
        !old(engine).spec_running() ==> {
            &&& final(engine).proxy@ == old(engine).proxy@
            &&& r.0.err_count == old(counter).count + 1
            &&& r.1 matches Some(d) && d.spec_message() == crate::error_handler::strip_ansi(
                not_running_message(),
            ) && (d is Dispatched <==> old(hub).dispatcher_registered)
        },
{
    let delivery = match send_proxy_message(&mut engine.proxy, ProxyMessage::CreateScreen(config)) {
        Ok(_) => None,
        Err(err) => Some(dispatch_err(hub, counter, err.message())),
    };
    let err_count = reset_tls_err_count(counter);
    (ApiResult::from_err_count(err_count), delivery)
}

} // verus!
