//! Watch sessions: configuration validation, the lifetime of the
//! coalescer and of the root subscriptions, and idempotent stop.

use vstd::prelude::*;

use crate::coalescer::{step_acc, Coalescer, Input};
use crate::event::{is_relevant, RawEvent};

verus! {

/// Why a session could not be created, or what went wrong under a
/// running one.
#[derive(Clone, Copy, Debug, PartialEq, Eq, Structural)]
pub enum WatchError {
    /// Invalid session parameters: the debounce delay is not strictly
    /// positive.
    ConfigError,
    /// A requested root path does not exist or is not readable at
    /// registration time.
    InvalidRoot,
    /// An OS-level monitoring error after successful registration.
    WatchTransportError,
}

/// What the caller observed of one requested root at registration time:
/// its path, and whether it exists and is readable.
pub struct RootProbe {
    pub path: String,
    pub present: bool,
}

/// A running watch session: the validated configuration, the roots it
/// monitors, and its coalescer. The caller owns it exclusively and
/// drives it with events and timer fires; stopping it releases the
/// roots and silences it for good.
pub struct WatchSession {
    active: bool,
    delay_ms: i64,
    roots: Vec<RootProbe>,
    coal: Coalescer,
}

impl WatchSession {
    /// Whether the session is still running.
    pub closed spec fn active_spec(&self) -> bool {
        self.active
    }

    /// Whether the session's debounce window is accumulating.
    pub closed spec fn acc(&self) -> bool {
        self.coal.acc()
    }

    /// The debounce delay, in milliseconds.
    pub closed spec fn delay_spec(&self) -> int {
        self.delay_ms as int
    }

    /// The paths of the roots the session monitors.
    pub closed spec fn roots_spec(&self) -> Seq<Seq<char>> {
        self.roots@.map_values(|p: RootProbe| p.path@)
    }

    /// Whether the session is still running.
    pub fn is_active(&self) -> (b: bool)
        ensures
            b == self.active_spec(),
    {
        self.active
    }

    /// The debounce delay, in milliseconds.
    pub fn delay_millis(&self) -> (d: i64)
        ensures
            d as int == self.delay_spec(),
    {
        self.delay_ms
    }

    /// How many roots the session monitors.
    pub fn root_count(&self) -> (n: usize)
        ensures
            n == self.roots_spec().len(),
    {
        self.roots.len()
    }
}

/// How one input changes a session's window state: a stopped session
/// ignores it, a running one steps its coalescer.
pub open spec fn session_step_acc(active: bool, acc: bool, i: Input) -> bool {
    if active {
        step_acc(acc, i)
    } else {
        acc
    }
}

/// How many callback invocations a session produces over a trace of
/// inputs: a running session fires on each timer fire that closes a
/// non-empty window; a stopped one never fires.
pub open spec fn session_fires(active: bool, acc: bool, tr: Seq<Input>) -> nat
    decreases tr.len(),
{
    if tr.len() == 0 {
        0
    } else {
        (if active && acc && tr[0] is Tick {
            1nat
        } else {
            0nat
        }) + session_fires(active, session_step_acc(active, acc, tr[0]), tr.drop_first())
    }
}

/// Stop law: once a session is stopped, no trace of injected events
/// and timer fires — whatever window state was left behind — ever
/// produces a callback.
pub proof fn lemma_no_callback_after_stop(acc: bool, tr: Seq<Input>)
    ensures
        session_fires(false, acc, tr) == 0,
    decreases tr.len(),
{
    if tr.len() > 0 {
        lemma_no_callback_after_stop(session_step_acc(false, acc, tr[0]), tr.drop_first());
    }
}

/// Creates a watch session over the probed roots with the given
/// debounce delay.
///
/// Fails with `ConfigError` when the delay is not strictly positive,
/// and with `InvalidRoot` when any probed root is absent; in either
/// case no session exists, so no subscription is left behind. On
/// success the session is active, idle, and monitors exactly the
/// requested roots in order.
pub fn watch(delay_ms: i64, probes: Vec<RootProbe>) -> (r: Result<WatchSession, WatchError>)
    ensures
        r == Err::<WatchSession, WatchError>(WatchError::ConfigError) <==> delay_ms <= 0,
        r == Err::<WatchSession, WatchError>(WatchError::InvalidRoot) <==> (delay_ms > 0
            && exists|i: int| 0 <= i < probes@.len() && !(#[trigger] probes@[i]).present),
        r is Ok <==> (delay_ms > 0 && forall|i: int|
            0 <= i < probes@.len() ==> (#[trigger] probes@[i]).present),
        r matches Ok(s) ==> s.active_spec() && !s.acc() && s.delay_spec() == delay_ms
            && s.roots_spec() == probes@.map_values(|p: RootProbe| p.path@),
{
    if delay_ms <= 0 {
        return Err(WatchError::ConfigError);
    }
    let mut i: usize = 0;
    while i < probes.len()
        invariant
            delay_ms > 0,
            i <= probes@.len(),
            forall|j: int| 0 <= j < i ==> (#[trigger] probes@[j]).present,
        decreases probes@.len() - i,
    {
        if !probes[i].present {
            return Err(WatchError::InvalidRoot);
        }
        i = i + 1;
    }
    Ok(WatchSession { active: true, delay_ms, roots: probes, coal: Coalescer::new() })
}

impl WatchSession {
    /// Hands one raw event to the session. While the session is active
    /// the event goes to the coalescer, and the result says whether a
    /// new window timer must be started; after stop the event is
    /// ignored and nothing happens.
    pub fn handle_event(&mut self, e: &RawEvent) -> (start_timer: bool)
        ensures
            final(self).active_spec() == old(self).active_spec(),
            final(self).delay_spec() == old(self).delay_spec(),
            final(self).roots_spec() == old(self).roots_spec(),
            final(self).acc() == session_step_acc(
                old(self).active_spec(),
                old(self).acc(),
                Input::Arrive(e.kind),
            ),
            start_timer == (old(self).active_spec() && !old(self).acc() && is_relevant(e.kind)),
    {
        if self.active {
            self.coal.on_event(&e.kind)
        } else {
            false
        }
    }

    /// The window timer fired. While the session is active the result
    /// says whether the reload callback is due — exactly when the
    /// window accumulated a relevant event — and the window closes;
    /// after stop no callback is ever due.
    pub fn fire_timer(&mut self) -> (invoke: bool)
        ensures
            final(self).active_spec() == old(self).active_spec(),
            final(self).delay_spec() == old(self).delay_spec(),
            final(self).roots_spec() == old(self).roots_spec(),
            final(self).acc() == session_step_acc(
                old(self).active_spec(),
                old(self).acc(),
                Input::Tick,
            ),
            invoke == (old(self).active_spec() && old(self).acc()),
    {
        if self.active {
            self.coal.on_timer()
        } else {
            false
        }
    }

    /// Stops the session: the roots are released and the window is
    /// discarded. Idempotent, and after it returns no further event or
    /// timer fire can produce a callback.
    pub fn stop(&mut self)
        ensures
            !final(self).active_spec(),
            !final(self).acc(),
            final(self).roots_spec() == Seq::<Seq<char>>::empty(),
            final(self).delay_spec() == old(self).delay_spec(),
    {
        self.active = false;
        self.roots = Vec::new();
        self.coal = Coalescer::new();
        proof {
            assert(self.roots@.map_values(|p: RootProbe| p.path@) =~= Seq::<Seq<char>>::empty());
        }
    }

    /// Reports an OS-level transport error observed under a running
    /// session. The report is surfaced unchanged, and the session —
    /// its window included — is untouched: an error is never merged
    /// into the batch and never triggers or delays a reload.
    pub fn handle_transport_error(&mut self, err: String) -> (report: String)
        ensures
            *final(self) == *old(self),
            report == err,
    {
        err
    }
}

} // verus!
