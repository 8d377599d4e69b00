//! The debounce coalescer: a two-state machine that turns a bursty
//! stream of raw events into at most one callback per debounce window.

use vstd::prelude::*;

use crate::event::{is_relevant, kind_is_relevant, EventKind};

verus! {

/// One input to the coalescer: either a raw event arrives, or the
/// window timer fires at a period boundary.
#[derive(Clone, Copy, Debug)]
pub enum Input {
    Arrive(EventKind),
    Tick,
}

/// The coalescer's state, reduced to what the state machine needs:
/// whether a window is accumulating (at least one relevant event has
/// arrived since the window opened). `false` is the idle state.
pub struct Coalescer {
    accumulating: bool,
}

/// The state after one input: a relevant arrival opens or keeps the
/// window; an irrelevant one changes nothing; a timer fire closes the
/// window and returns to idle.
pub open spec fn step_acc(acc: bool, i: Input) -> bool {
    match i {
        Input::Arrive(k) => acc || is_relevant(k),
        Input::Tick => false,
    }
}

/// The state after a whole input trace.
pub open spec fn run_acc(acc: bool, tr: Seq<Input>) -> bool
    decreases tr.len(),
{
    if tr.len() == 0 {
        acc
    } else {
        run_acc(step_acc(acc, tr[0]), tr.drop_first())
    }
}

/// How many callback invocations a trace produces: one for each timer
/// fire that closes a non-empty window, none otherwise.
pub open spec fn fires(acc: bool, tr: Seq<Input>) -> nat
    decreases tr.len(),
{
    if tr.len() == 0 {
        0
    } else {
        (if tr[0] is Tick && acc {
            1nat
        } else {
            0nat
        }) + fires(step_acc(acc, tr[0]), tr.drop_first())
    }
}

/// How many timer fires a trace contains.
pub open spec fn ticks(tr: Seq<Input>) -> nat
    decreases tr.len(),
{
    if tr.len() == 0 {
        0
    } else {
        (if tr[0] is Tick {
            1nat
        } else {
            0nat
        }) + ticks(tr.drop_first())
    }
}

/// A trace made of arrivals alone: the events of one window, before its
/// timer fires.
pub open spec fn arrivals_only(tr: Seq<Input>) -> bool {
    forall|i: int| 0 <= i < tr.len() ==> tr[i] is Arrive
}

/// Whether one input is a relevant arrival.
pub open spec fn input_relevant(i: Input) -> bool {
    match i {
        Input::Arrive(k) => is_relevant(k),
        Input::Tick => false,
    }
}

/// Whether a trace contains at least one relevant arrival.
pub open spec fn has_relevant(tr: Seq<Input>) -> bool {
    exists|i: int| 0 <= i < tr.len() && input_relevant(#[trigger] tr[i])
}

/// Splitting off a trace's first input preserves having a relevant
/// arrival: a non-empty trace has one exactly when its head is one or
/// its tail has one.
proof fn lemma_has_relevant_unfold(tr: Seq<Input>)
    requires
        tr.len() > 0,
    ensures
        has_relevant(tr) == (input_relevant(tr[0]) || has_relevant(tr.drop_first())),
{
    if input_relevant(tr[0]) {
        assert(has_relevant(tr));
    }
    if has_relevant(tr.drop_first()) {
        let i = choose|i: int|
            0 <= i < tr.drop_first().len() && input_relevant(#[trigger] tr.drop_first()[i]);
        assert(input_relevant(tr[i + 1]));
    }
    if has_relevant(tr) && !input_relevant(tr[0]) {
        let i = choose|i: int| 0 <= i < tr.len() && input_relevant(#[trigger] tr[i]);
        assert(input_relevant(tr.drop_first()[i - 1]));
    }
}

/// Running one window: over arrivals alone the coalescer accumulates
/// exactly when it already was or a relevant event arrived, and the
/// timer fire that closes the window produces one callback in that case
/// and none otherwise, returning the coalescer to idle.
proof fn lemma_window_run(acc: bool, w: Seq<Input>)
    requires
        arrivals_only(w),
    ensures
        run_acc(acc, w) == (acc || has_relevant(w)),
        !run_acc(acc, w.push(Input::Tick)),
        fires(acc, w.push(Input::Tick)) == (if acc || has_relevant(w) {
            1nat
        } else {
            0nat
        }),
    decreases w.len(),
{
    let win = w.push(Input::Tick);
    if w.len() == 0 {
        assert(win[0] is Tick);
        assert(win.drop_first() =~= Seq::<Input>::empty());
        assert(!has_relevant(w));
        assert(run_acc(false, Seq::<Input>::empty()) == false);
        assert(fires(false, Seq::<Input>::empty()) == 0);
        assert(run_acc(acc, w) == acc);
        assert(run_acc(acc, win) == run_acc(step_acc(acc, win[0]), win.drop_first()));
        assert(fires(acc, win) == (if acc {
            1nat
        } else {
            0nat
        }) + fires(step_acc(acc, win[0]), win.drop_first()));
    } else {
        assert(w[0] is Arrive);
        let acc2 = step_acc(acc, w[0]);
        assert(acc2 == (acc || input_relevant(w[0])));
        assert(forall|i: int|
            0 <= i < w.drop_first().len() ==> #[trigger] w.drop_first()[i] == w[i + 1]);
        lemma_has_relevant_unfold(w);
        assert(win[0] == w[0]);
        assert(win.drop_first() =~= w.drop_first().push(Input::Tick));
        lemma_window_run(acc2, w.drop_first());
    }
}

/// Coalescing law: for every sequence of events arriving within one
/// debounce window that contains at least one relevant event, the
/// timer fire that closes the window invokes the callback exactly
/// once, however many events arrived, and leaves the coalescer idle.
pub proof fn lemma_one_window_one_callback(w: Seq<Input>)
    requires
        arrivals_only(w),
        has_relevant(w),
    ensures
        fires(false, w.push(Input::Tick)) == 1,
        !run_acc(false, w.push(Input::Tick)),
{
    lemma_window_run(false, w);
}

/// Irrelevance law: events of irrelevant kinds never open a window —
/// a window that saw no relevant event leaves the coalescer idle and
/// its timer fire produces no callback.
pub proof fn lemma_irrelevant_never_fires(w: Seq<Input>)
    requires
        arrivals_only(w),
        !has_relevant(w),
    ensures
        !run_acc(false, w),
        fires(false, w.push(Input::Tick)) == 0,
{
    lemma_window_run(false, w);
}

/// Rate law, upper bound: no trace produces more callbacks than it
/// contains timer fires, so the callback rate is bounded at one per
/// debounce period however dense the event stream.
pub proof fn lemma_rate_bounded_by_ticks(acc: bool, tr: Seq<Input>)
    ensures
        fires(acc, tr) <= ticks(tr),
    decreases tr.len(),
{
    if tr.len() > 0 {
        lemma_rate_bounded_by_ticks(step_acc(acc, tr[0]), tr.drop_first());
    }
}

/// A trace of `n` back-to-back debounce periods, each one window of
/// arrivals closed by a timer fire.
pub open spec fn repeat_windows(w: Seq<Input>, n: nat) -> Seq<Input>
    decreases n,
{
    if n == 0 {
        Seq::empty()
    } else {
        w.push(Input::Tick) + repeat_windows(w, (n - 1) as nat)
    }
}

/// Concatenation runs the two halves in order, fires adding up.
proof fn lemma_fires_concat(acc: bool, a: Seq<Input>, b: Seq<Input>)
    ensures
        run_acc(acc, a + b) == run_acc(run_acc(acc, a), b),
        fires(acc, a + b) == fires(acc, a) + fires(run_acc(acc, a), b),
    decreases a.len(),
{
    if a.len() == 0 {
        assert(a + b =~= b);
    } else {
        assert((a + b)[0] == a[0]);
        assert((a + b).drop_first() =~= a.drop_first() + b);
        lemma_fires_concat(step_acc(acc, a[0]), a.drop_first(), b);
    }
}

/// Timer fires add up over concatenation.
proof fn lemma_ticks_concat(a: Seq<Input>, b: Seq<Input>)
    ensures
        ticks(a + b) == ticks(a) + ticks(b),
    decreases a.len(),
{
    if a.len() == 0 {
        assert(a + b =~= b);
    } else {
        assert((a + b)[0] == a[0]);
        assert((a + b).drop_first() =~= a.drop_first() + b);
        lemma_ticks_concat(a.drop_first(), b);
    }
}

/// A trace of arrivals alone contains no timer fire.
proof fn lemma_ticks_arrivals(w: Seq<Input>)
    requires
        arrivals_only(w),
    ensures
        ticks(w) == 0,
    decreases w.len(),
{
    if w.len() > 0 {
        assert(forall|i: int|
            0 <= i < w.drop_first().len() ==> #[trigger] w.drop_first()[i] == w[i + 1]);
        lemma_ticks_arrivals(w.drop_first());
    }
}

/// Rate law, steady stream: when every debounce period contains at
/// least one relevant event — however closely spaced — the callback
/// is invoked exactly once per period: `n` periods give exactly `n`
/// callbacks out of `n` timer fires, never zero and never more.
pub proof fn lemma_steady_stream_rate(w: Seq<Input>, n: nat)
    requires
        arrivals_only(w),
        has_relevant(w),
    ensures
        fires(false, repeat_windows(w, n)) == n,
        ticks(repeat_windows(w, n)) == n,
        !run_acc(false, repeat_windows(w, n)),
    decreases n,
{
    if n == 0 {
    } else {
        let win = w.push(Input::Tick);
        let rest = repeat_windows(w, (n - 1) as nat);
        lemma_window_run(false, w);
        lemma_fires_concat(false, win, rest);
        assert(win =~= w + seq![Input::Tick]);
        lemma_ticks_concat(w, seq![Input::Tick]);
        assert(seq![Input::Tick].drop_first() =~= Seq::<Input>::empty());
        assert(ticks(Seq::<Input>::empty()) == 0);
        assert(seq![Input::Tick][0] is Tick);
        assert(ticks(seq![Input::Tick]) == 1);
        lemma_ticks_arrivals(w);
        lemma_ticks_concat(win, rest);
        lemma_steady_stream_rate(w, (n - 1) as nat);
    }
}

impl Coalescer {
    /// Whether a window is currently accumulating.
    pub closed spec fn acc(&self) -> bool {
        self.accumulating
    }

    /// A fresh coalescer starts idle: no window is open.
    pub fn new() -> (c: Coalescer)
        ensures
            !c.acc(),
    {
        Coalescer { accumulating: false }
    }

    /// Takes one raw event. A relevant event opens a window when none is
    /// open (then the caller must start the window timer) or merges into
    /// the open one without extending its timer; an irrelevant event is
    /// discarded.
    pub fn on_event(&mut self, k: &EventKind) -> (start_timer: bool)
        ensures
            final(self).acc() == step_acc(old(self).acc(), Input::Arrive(*k)),
            start_timer == (!old(self).acc() && is_relevant(*k)),
    {
        let relevant = kind_is_relevant(k);
        let start_timer = relevant && !self.accumulating;
        self.accumulating = self.accumulating || relevant;
        start_timer
    }

    /// The window timer fired. The callback is due exactly when the
    /// window accumulated at least one relevant event; either way the
    /// coalescer returns to idle. An empty window never fires.
    pub fn on_timer(&mut self) -> (invoke: bool)
        ensures
            !final(self).acc(),
            invoke == old(self).acc(),
    {
        let invoke = self.accumulating;
        self.accumulating = false;
        invoke
    }
}

} // verus!
