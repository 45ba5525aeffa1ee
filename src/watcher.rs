use vstd::prelude::*;

verus! {

/// Grace period before the first poll, so that a response can start streaming.
pub const WATCH_INITIAL_DELAY_MS: u64 = 2000;

/// Time between two polls.
pub const WATCH_INTERVAL_MS: u64 = 500;

/// Polls after which an armed watcher gives up.
pub const WATCH_MAX_CHECKS: u32 = 600;

/// The completion watcher: armed once per response, it polls for the
/// streaming indicator and reports the first fall from streaming to idle.
#[derive(Clone, Copy, Debug, PartialEq, Eq, Structural)]
pub struct CompletionWatcher {
    /// Set while a watch cycle runs; arming again meanwhile does nothing.
    pub armed: bool,
    /// Whether a poll of this cycle has seen the response streaming.
    pub was_streaming: bool,
    /// Polls made in this cycle.
    pub checks: u32,
}

/// What one poll leads to.
#[derive(Clone, Copy, Debug, PartialEq, Eq, Structural)]
pub enum WatchOutcome {
    /// The watcher is not armed: the poll does nothing.
    Idle,
    /// Keep polling.
    Continue,
    /// The response finished: emit the completion event; the watcher disarms.
    Complete,
    /// The poll budget is spent: the watcher disarms without an event.
    Expired,
}

impl CompletionWatcher {
    pub open spec fn wf(self) -> bool {
        self.checks <= WATCH_MAX_CHECKS
    }

    /// The watcher after arming: a running cycle is left alone.
    pub open spec fn spec_arm(self) -> CompletionWatcher {
        if self.armed {
            self
        } else {
            CompletionWatcher { armed: true, was_streaming: false, checks: 0 }
        }
    }

    /// One poll that found the streaming indicator present or not.
    pub open spec fn spec_poll(self, streaming: bool) -> (CompletionWatcher, WatchOutcome) {
        if !self.armed {
            (self, WatchOutcome::Idle)
        } else if self.checks >= WATCH_MAX_CHECKS {
            (CompletionWatcher { armed: false, ..self }, WatchOutcome::Expired)
        } else {
            let was = self.was_streaming || streaming;
            let next = CompletionWatcher { armed: true, was_streaming: was, checks: (self.checks + 1) as u32 };
            if was && !streaming {
                (CompletionWatcher { armed: false, ..next }, WatchOutcome::Complete)
            } else {
                (next, WatchOutcome::Continue)
            }
        }
    }

    /// A watcher that has never been armed.
    pub fn new() -> (r: CompletionWatcher)
        ensures
            r.wf(),
            !r.armed,
            !r.was_streaming,
            r.checks == 0,
    {
        CompletionWatcher { armed: false, was_streaming: false, checks: 0 }
    }

    /// Arms the watcher; returns false, changing nothing, where a cycle is
    /// already running.
    pub fn arm(&mut self) -> (started: bool)
        requires
            old(self).wf(),
        ensures
            started == !old(self).armed,
            *final(self) == old(self).spec_arm(),
            final(self).wf(),
    {
        if self.armed {
            false
        } else {
            self.armed = true;
            self.was_streaming = false;
            self.checks = 0;
            true
        }
    }

    /// Records one poll; `streaming` says whether a stop or cancel control was
    /// present in the document.
    pub fn poll(&mut self, streaming: bool) -> (r: WatchOutcome)
        requires
            old(self).wf(),
        ensures
            (*final(self), r) == old(self).spec_poll(streaming),
            final(self).wf(),
            r == WatchOutcome::Complete <==> (old(self).armed && old(self).checks < WATCH_MAX_CHECKS
                && old(self).was_streaming && !streaming),
    {
        if !self.armed {
            return WatchOutcome::Idle;
        }
        if self.checks >= WATCH_MAX_CHECKS {
            self.armed = false;
            return WatchOutcome::Expired;
        }
        self.checks = self.checks + 1;
        if streaming {
            self.was_streaming = true;
        }
        if self.was_streaming && !streaming {
            self.armed = false;
            WatchOutcome::Complete
        } else {
            WatchOutcome::Continue
        }
    }
}

/// How many completion events a run of polls emits.
pub open spec fn completions(w: CompletionWatcher, ticks: Seq<bool>) -> nat
    decreases ticks.len(),
{
    if ticks.len() == 0 {
        0
    } else {
        let (next, outcome) = w.spec_poll(ticks[0]);
        (if outcome == WatchOutcome::Complete { 1nat } else { 0nat }) + completions(next, ticks.skip(1))
    }
}

/// A run of polls that sees the indicator at some poll and misses it at a
/// later one.
pub open spec fn streaming_then_idle(ticks: Seq<bool>) -> bool {
    exists|i: int, j: int| 0 <= i < j < ticks.len() && #[trigger] ticks[i] && !#[trigger] ticks[j]
}

proof fn lemma_disarmed_silent(w: CompletionWatcher, ticks: Seq<bool>)
    requires
        !w.armed,
    ensures
        completions(w, ticks) == 0,
    decreases ticks.len(),
{
    if ticks.len() > 0 {
        lemma_disarmed_silent(w, ticks.skip(1));
    }
}

proof fn lemma_at_most_one(w: CompletionWatcher, ticks: Seq<bool>)
    ensures
        completions(w, ticks) <= 1,
    decreases ticks.len(),
{
    if ticks.len() > 0 {
        let (next, outcome) = w.spec_poll(ticks[0]);
        if outcome == WatchOutcome::Complete {
            lemma_disarmed_silent(next, ticks.skip(1));
        } else {
            lemma_at_most_one(next, ticks.skip(1));
        }
    }
}

proof fn lemma_complete_needs_fall(w: CompletionWatcher, ticks: Seq<bool>)
    requires
        completions(w, ticks) > 0,
    ensures
        streaming_then_idle(ticks) || (w.was_streaming && exists|j: int| 0 <= j < ticks.len() && !#[trigger] ticks[j]),
    decreases ticks.len(),
{
    let (next, outcome) = w.spec_poll(ticks[0]);
    let rest = ticks.skip(1);
    if outcome == WatchOutcome::Complete {
        assert(!ticks[0]);
    } else {
        lemma_complete_needs_fall(next, rest);
        if streaming_then_idle(rest) {
            let (i, j) = choose|i: int, j: int| 0 <= i < j < rest.len() && #[trigger] rest[i] && !#[trigger] rest[j];
            assert(ticks[i + 1] && !ticks[j + 1]);
        } else {
            let j = choose|j: int| 0 <= j < rest.len() && !#[trigger] rest[j];
            assert(!ticks[j + 1]);
            if !w.was_streaming {
                assert(ticks[0]);
                assert(0 < j + 1);
            }
        }
    }
}

/// Over any run of polls after arming, at most one completion is emitted,
/// and one is emitted only where a poll saw the response streaming and a
/// later poll saw it idle.
pub proof fn lemma_one_completion_per_cycle(w: CompletionWatcher, ticks: Seq<bool>)
    requires
        w.wf(),
        !w.armed,
    ensures
        completions(w.spec_arm(), ticks) <= 1,
        completions(w.spec_arm(), ticks) == 1 ==> streaming_then_idle(ticks),
{
    lemma_at_most_one(w.spec_arm(), ticks);
    if completions(w.spec_arm(), ticks) == 1 {
        lemma_complete_needs_fall(w.spec_arm(), ticks);
    }
}

} // verus!
