use vstd::prelude::*;

verus! {

/// Attempts to find the chat input before giving up.
pub const INJECT_MAX_RETRIES: u32 = 15;

/// Wait between two attempts.
pub const INJECT_RETRY_DELAY_MS: u64 = 300;

/// Time after which injection fails, whatever the retry budget says.
pub const INJECT_TOTAL_TIMEOUT_MS: u64 = 8000;

/// Wait between writing the message and submitting it.
pub const SUBMIT_SETTLE_MS: u64 = 200;

/// The two ways the chat input can take text.
#[derive(Clone, Copy, Debug, PartialEq, Eq, Structural)]
pub enum TargetKind {
    /// A rich editable region: its content is set and an input event follows.
    Editable,
    /// A plain field: written through the native value setter, then input
    /// and change events, then focus.
    ValueField,
}

/// Why an injection failed.
#[derive(Clone, Copy, Debug, PartialEq, Eq, Structural)]
pub enum InjectionError {
    /// No input element appeared within the retry budget.
    ElementNotFound,
    /// The total timeout elapsed first.
    TimedOut,
    /// Writing the value into the element failed.
    InjectionFailed,
}

/// How the message is submitted once written.
#[derive(Clone, Copy, Debug, PartialEq, Eq, Structural)]
pub enum SubmitAction {
    /// Click the send control that was found.
    ClickSend,
    /// No usable send control: press Enter on the input element.
    PressEnter,
}

/// What the engine asks of the document at one tick.
#[derive(Clone, Copy, Debug, PartialEq, Eq, Structural)]
pub enum InjectionStep {
    /// Nothing found yet: tick again at the given time.
    Retry { at_ms: u64 },
    /// Write the message into the element found, then tick again at the
    /// given time to submit.
    Write { kind: TargetKind, submit_at_ms: u64 },
    /// Submit and report success.
    Submit(SubmitAction),
    /// Report failure and stop.
    Fail(InjectionError),
    /// The attempt is over: nothing more to do.
    Stopped,
}

/// Where an attempt stands.
#[derive(Clone, Copy, Debug, PartialEq, Eq, Structural)]
pub enum InjectionPhase {
    Searching,
    Written,
    Done,
}

/// One injection attempt. Times are in milliseconds since the attempt began.
#[derive(Clone, Copy, Debug, PartialEq, Eq, Structural)]
pub struct InjectionAttempt {
    pub max_retries: u32,
    pub retry_delay_ms: u64,
    pub total_timeout_ms: u64,
    pub retry_count: u32,
    pub phase: InjectionPhase,
}

/// The send control found at submission, if any.
#[derive(Clone, Copy, Debug, PartialEq, Eq, Structural)]
pub struct SendControl {
    pub disabled: bool,
}

/// An enabled send control is clicked; otherwise Enter is pressed.
pub open spec fn spec_submit_action(send: Option<SendControl>) -> SubmitAction {
    match send {
        Some(c) => if c.disabled { SubmitAction::PressEnter } else { SubmitAction::ClickSend },
        None => SubmitAction::PressEnter,
    }
}

pub fn submit_action(send: Option<SendControl>) -> (r: SubmitAction)
    ensures
        r == spec_submit_action(send),
{
    match send {
        Some(c) => if c.disabled { SubmitAction::PressEnter } else { SubmitAction::ClickSend },
        None => SubmitAction::PressEnter,
    }
}

/// The earlier of `now + delay` and `deadline`, for `now < deadline`.
pub open spec fn next_tick(now: u64, delay: u64, deadline: u64) -> u64 {
    if delay >= deadline - now { deadline } else { (now + delay) as u64 }
}

impl InjectionAttempt {
    pub open spec fn wf(self) -> bool {
        self.max_retries >= 1 && self.retry_count < self.max_retries
    }

    /// One tick at time `now`: `found` is the input element located, if any,
    /// and `send` the send control, read only when submitting.
    pub open spec fn spec_tick(self, now: u64, found: Option<TargetKind>, send: Option<SendControl>) -> (InjectionAttempt, InjectionStep) {
        let done = InjectionAttempt { phase: InjectionPhase::Done, ..self };
        match self.phase {
            InjectionPhase::Done => (self, InjectionStep::Stopped),
            _ => if now >= self.total_timeout_ms {
                (done, InjectionStep::Fail(InjectionError::TimedOut))
            } else {
                match self.phase {
                    InjectionPhase::Written => (done, InjectionStep::Submit(spec_submit_action(send))),
                    _ => match found {
                        Some(kind) => (
                            InjectionAttempt { phase: InjectionPhase::Written, ..self },
                            InjectionStep::Write {
                                kind,
                                submit_at_ms: next_tick(now, SUBMIT_SETTLE_MS, self.total_timeout_ms),
                            },
                        ),
                        None => if self.retry_count + 1 < self.max_retries {
                            (
                                InjectionAttempt { retry_count: (self.retry_count + 1) as u32, ..self },
                                InjectionStep::Retry { at_ms: next_tick(now, self.retry_delay_ms, self.total_timeout_ms) },
                            )
                        } else {
                            (done, InjectionStep::Fail(InjectionError::ElementNotFound))
                        },
                    },
                }
            },
        }
    }

    /// A fresh attempt with the given budget.
    pub fn new(max_retries: u32, retry_delay_ms: u64, total_timeout_ms: u64) -> (r: InjectionAttempt)
        requires
            max_retries >= 1,
        ensures
            r.wf(),
            r == (InjectionAttempt {
                max_retries,
                retry_delay_ms,
                total_timeout_ms,
                retry_count: 0,
                phase: InjectionPhase::Searching,
            }),
    {
        InjectionAttempt { max_retries, retry_delay_ms, total_timeout_ms, retry_count: 0, phase: InjectionPhase::Searching }
    }

    /// One tick of the engine at time `now`.
    pub fn tick(&mut self, now: u64, found: Option<TargetKind>, send: Option<SendControl>) -> (r: InjectionStep)
        requires
            old(self).wf(),
        ensures
            (*final(self), r) == old(self).spec_tick(now, found, send),
            final(self).wf(),
    {
        match self.phase {
            InjectionPhase::Done => {
                return InjectionStep::Stopped;
            },
            _ => {},
        }
        if now >= self.total_timeout_ms {
            self.phase = InjectionPhase::Done;
            return InjectionStep::Fail(InjectionError::TimedOut);
        }
        match self.phase {
            InjectionPhase::Written => {
                self.phase = InjectionPhase::Done;
                return InjectionStep::Submit(submit_action(send));
            },
            _ => {},
        }
        match found {
            Some(kind) => {
                self.phase = InjectionPhase::Written;
                let at = if SUBMIT_SETTLE_MS >= self.total_timeout_ms - now {
                    self.total_timeout_ms
                } else {
                    now + SUBMIT_SETTLE_MS
                };
                InjectionStep::Write { kind, submit_at_ms: at }
            },
            None => {
                if self.retry_count + 1 < self.max_retries {
                    self.retry_count = self.retry_count + 1;
                    let at = if self.retry_delay_ms >= self.total_timeout_ms - now {
                        self.total_timeout_ms
                    } else {
                        now + self.retry_delay_ms
                    };
                    InjectionStep::Retry { at_ms: at }
                } else {
                    self.phase = InjectionPhase::Done;
                    InjectionStep::Fail(InjectionError::ElementNotFound)
                }
            },
        }
    }

    /// Writing into the element threw: the attempt fails.
    pub fn write_failed(&mut self) -> (r: InjectionStep)
        requires
            old(self).wf(),
        ensures
            old(self).phase == InjectionPhase::Written ==> r == InjectionStep::Fail(InjectionError::InjectionFailed)
                && *final(self) == (InjectionAttempt { phase: InjectionPhase::Done, ..*old(self) }),
            old(self).phase != InjectionPhase::Written ==> r == InjectionStep::Stopped && *final(self) == *old(self),
            final(self).wf(),
    {
        match self.phase {
            InjectionPhase::Written => {
                self.phase = InjectionPhase::Done;
                InjectionStep::Fail(InjectionError::InjectionFailed)
            },
            _ => InjectionStep::Stopped,
        }
    }
}

/// What the document shows at each tick: the input element found, and the
/// send control found.
pub type Observation = (Option<TargetKind>, Option<SendControl>);

/// Runs an attempt from time `now`, each tick taking the next observation and
/// happening at the time that the previous step asked for. Gives the time and
/// the step that ended the attempt, or `None` where the observations ran out.
pub open spec fn run_attempt(a: InjectionAttempt, now: u64, obs: Seq<Observation>) -> Option<(u64, InjectionStep)>
    decreases obs.len(),
{
    if obs.len() == 0 {
        None
    } else {
        let (next, step) = a.spec_tick(now, obs[0].0, obs[0].1);
        match step {
            InjectionStep::Retry { at_ms } => run_attempt(next, at_ms, obs.skip(1)),
            InjectionStep::Write { kind, submit_at_ms } => run_attempt(next, submit_at_ms, obs.skip(1)),
            _ => Some((now, step)),
        }
    }
}

/// Every tick that an attempt schedules falls at or before its total
/// timeout, so the attempt ends, failed or not, by then: a retry budget with
/// `max_retries * retry_delay_ms` beyond the timeout cannot outlast it.
pub proof fn lemma_ends_by_timeout(a: InjectionAttempt, now: u64, obs: Seq<Observation>)
    requires
        a.wf(),
        now <= a.total_timeout_ms,
    ensures
        match run_attempt(a, now, obs) {
            Some((t, _)) => t <= a.total_timeout_ms,
            None => true,
        },
    decreases obs.len(),
{
    if obs.len() > 0 {
        let (next, step) = a.spec_tick(now, obs[0].0, obs[0].1);
        assert(next.wf());
        assert(next.total_timeout_ms == a.total_timeout_ms);
        match step {
            InjectionStep::Retry { at_ms } => lemma_ends_by_timeout(next, at_ms, obs.skip(1)),
            InjectionStep::Write { kind, submit_at_ms } => lemma_ends_by_timeout(next, submit_at_ms, obs.skip(1)),
            _ => {},
        }
    }
}

/// A tick at or after the timeout fails the attempt unless it is already over.
pub proof fn lemma_timeout_wins(a: InjectionAttempt, now: u64, found: Option<TargetKind>, send: Option<SendControl>)
    requires
        a.wf(),
        a.phase != InjectionPhase::Done,
        now >= a.total_timeout_ms,
    ensures
        a.spec_tick(now, found, send).1 == InjectionStep::Fail(InjectionError::TimedOut),
{
}

} // verus!
