//! The file-readiness poller: how long to wait for a file that another
//! program is still writing, and when to give up.
//!
//! The poller never looks at the file itself. Its caller probes the file and
//! reports the answer; the poller says what to do next. Time is counted in
//! the delays the poller has asked for: a probe itself takes no time.

use vstd::prelude::*;

verus! {

/// The longest wait for one file, in milliseconds: three minutes.
pub const POLL_CEILING_MS: u64 = 180_000;

/// The delay between two probes of a file, in milliseconds.
pub const POLL_INTERVAL_MS: u64 = 500;

/// What a readiness probe of a file answered.
#[derive(Clone, Copy, Debug, PartialEq, Eq, Structural)]
pub enum Probe {
    /// The file exists and is fully written.
    Ready,
    /// The file is missing or still being written.
    NotReady,
    /// The probe itself broke down with an error of the operating system.
    Failed,
}

/// The wait policy of a poll: the ceiling on the total wait and the delay
/// between two probes.
#[derive(Clone, Copy, Debug, PartialEq, Eq, Structural)]
pub struct PollPolicy {
    pub ceiling_ms: u64,
    pub interval_ms: u64,
}

/// The state of the wait for one file. It is made anew for every file.
#[derive(Clone, Copy, Debug, PartialEq, Eq, Structural)]
pub struct PollState {
    pub policy: PollPolicy,
    /// The sum of the delays asked for so far.
    pub elapsed_ms: u64,
}

/// What the caller has to do after a probe.
#[derive(Clone, Copy, Debug, PartialEq, Eq, Structural)]
pub enum PollStep {
    /// Not ready yet: sleep for `ms`, then probe again.
    Sleep { ms: u64 },
    /// The file is ready. Before the file is used, one more delay of
    /// `settle_ms` is due, which lets the writer flush.
    Ready { settle_ms: u64 },
    /// The ceiling was reached and the file was still not ready.
    TimedOut { elapsed_ms: u64 },
    /// The probe failed; the wait is over at once.
    IoFailure,
}

/// How a whole wait ends, and after how many milliseconds of delay.
pub enum PollOutcome {
    Ready { elapsed: nat },
    TimedOut { elapsed: nat },
    IoFailure { elapsed: nat },
}

/// How a wait ends that has already lasted `elapsed` milliseconds, where
/// `answers(e)` is what a probe answers after `e` milliseconds. The poller
/// probes, and on `NotReady` below the ceiling delays by one interval and
/// probes again. (With an interval of zero a wait need not end; no valid
/// policy has one, and the function then gives `TimedOut`.)
pub open spec fn outcome_from(
    ceiling: nat,
    interval: nat,
    answers: spec_fn(nat) -> Probe,
    elapsed: nat,
) -> PollOutcome
    decreases ceiling + interval - elapsed,
{
    match answers(elapsed) {
        Probe::Ready => PollOutcome::Ready { elapsed },
        Probe::Failed => PollOutcome::IoFailure { elapsed },
        Probe::NotReady => if elapsed >= ceiling || interval == 0 {
            PollOutcome::TimedOut { elapsed }
        } else {
            outcome_from(ceiling, interval, answers, elapsed + interval)
        },
    }
}

impl PollPolicy {
    /// A policy is valid when probes are spaced apart and the longest
    /// possible wait still fits the counter.
    pub open spec fn wf(&self) -> bool {
        self.interval_ms > 0 && self.ceiling_ms + self.interval_ms <= u64::MAX
    }

    /// The policy with the given ceiling and interval, if it is valid.
    pub fn new(ceiling_ms: u64, interval_ms: u64) -> (policy: Option<PollPolicy>)
        ensures
            policy == if interval_ms > 0 && ceiling_ms + interval_ms <= u64::MAX {
                Some(PollPolicy { ceiling_ms, interval_ms })
            } else {
                None
            },
    {
        if interval_ms > 0 && ceiling_ms <= u64::MAX - interval_ms {
            Some(PollPolicy { ceiling_ms, interval_ms })
        } else {
            None
        }
    }

    /// Three minutes of waiting at most, with a probe every half second.
    pub fn standard() -> (policy: PollPolicy)
        ensures
            policy == (PollPolicy { ceiling_ms: POLL_CEILING_MS, interval_ms: POLL_INTERVAL_MS }),
            policy.wf(),
    {
        PollPolicy { ceiling_ms: POLL_CEILING_MS, interval_ms: POLL_INTERVAL_MS }
    }

    /// Whether the policy is valid.
    pub fn is_valid(&self) -> (valid: bool)
        ensures
            valid == self.wf(),
    {
        self.interval_ms > 0 && self.ceiling_ms <= u64::MAX - self.interval_ms
    }

    /// How a wait under this policy ends when probes answer as `answers`
    /// says, counted from the first probe.
    pub open spec fn outcome(&self, answers: spec_fn(nat) -> Probe) -> PollOutcome {
        outcome_from(self.ceiling_ms as nat, self.interval_ms as nat, answers, 0)
    }
}

impl PollState {
    pub open spec fn wf(&self) -> bool {
        self.policy.wf()
    }

    /// What the poller asks for when a probe in this state answers `probe`.
    pub open spec fn verdict(&self, probe: Probe) -> PollStep {
        match probe {
            Probe::Ready => PollStep::Ready { settle_ms: self.policy.interval_ms },
            Probe::Failed => PollStep::IoFailure,
            Probe::NotReady => if self.elapsed_ms >= self.policy.ceiling_ms {
                PollStep::TimedOut { elapsed_ms: self.elapsed_ms }
            } else {
                PollStep::Sleep { ms: self.policy.interval_ms }
            },
        }
    }

    /// The state after a probe answered `probe`: only a delay that the
    /// poller asks for adds to the elapsed time.
    pub open spec fn after(&self, probe: Probe) -> PollState {
        if self.verdict(probe) is Sleep {
            PollState {
                policy: self.policy,
                elapsed_ms: (self.elapsed_ms + self.policy.interval_ms) as u64,
            }
        } else {
            *self
        }
    }

    /// How the rest of the wait ends from this state on.
    pub open spec fn outcome(&self, answers: spec_fn(nat) -> Probe) -> PollOutcome {
        outcome_from(
            self.policy.ceiling_ms as nat,
            self.policy.interval_ms as nat,
            answers,
            self.elapsed_ms as nat,
        )
    }

    /// Whether the state is well formed.
    pub fn is_valid(&self) -> (valid: bool)
        ensures
            valid == self.wf(),
    {
        self.policy.is_valid()
    }

    /// The state at the start of the wait for a file.
    pub fn start(policy: PollPolicy) -> (state: PollState)
        ensures
            state == (PollState { policy, elapsed_ms: 0 }),
    {
        PollState { policy, elapsed_ms: 0 }
    }

    /// Takes the answer of a probe and says what to do next.
    pub fn observe(&mut self, probe: Probe) -> (step: PollStep)
        requires
            old(self).wf(),
        ensures
            step == old(self).verdict(probe),
            *final(self) == old(self).after(probe),
            final(self).wf(),
            step is Sleep ==> final(self).elapsed_ms == old(self).elapsed_ms
                + old(self).policy.interval_ms,
    {
        match probe {
            Probe::Ready => PollStep::Ready { settle_ms: self.policy.interval_ms },
            Probe::Failed => PollStep::IoFailure,
            Probe::NotReady => {
                if self.elapsed_ms >= self.policy.ceiling_ms {
                    PollStep::TimedOut { elapsed_ms: self.elapsed_ms }
                } else {
                    self.elapsed_ms = self.elapsed_ms + self.policy.interval_ms;
                    PollStep::Sleep { ms: self.policy.interval_ms }
                }
            },
        }
    }
}

/// The outcome of a wait is what probing and observing again and again
/// leads to: a step that is not `Sleep` ends the wait at the elapsed time
/// of the state, and after a `Sleep` the wait ends as it does from the
/// next state.
pub proof fn lemma_outcome_follows_steps(state: PollState, answers: spec_fn(nat) -> Probe)
    requires
        state.wf(),
    ensures
        match state.verdict(answers(state.elapsed_ms as nat)) {
            PollStep::Sleep { ms } => state.outcome(answers) == state.after(
                answers(state.elapsed_ms as nat),
            ).outcome(answers),
            PollStep::Ready { settle_ms } => state.outcome(answers) == (PollOutcome::Ready {
                elapsed: state.elapsed_ms as nat,
            }),
            PollStep::TimedOut { elapsed_ms } => state.outcome(answers) == (PollOutcome::TimedOut {
                elapsed: state.elapsed_ms as nat,
            }),
            PollStep::IoFailure => state.outcome(answers) == (PollOutcome::IoFailure {
                elapsed: state.elapsed_ms as nat,
            }),
        },
{
}

/// A file that never becomes ready: the wait ends in `TimedOut`, and the
/// elapsed time then lies in the interval from the ceiling (included) to
/// the ceiling plus one poll interval (excluded).
pub proof fn lemma_never_ready_times_out(policy: PollPolicy, answers: spec_fn(nat) -> Probe)
    requires
        policy.wf(),
        forall|e: nat| #[trigger] answers(e) == Probe::NotReady,
    ensures
        policy.outcome(answers) is TimedOut,
        policy.ceiling_ms <= policy.outcome(answers)->TimedOut_elapsed < policy.ceiling_ms
            + policy.interval_ms,
{
    lemma_times_out_from(policy.ceiling_ms as nat, policy.interval_ms as nat, answers, 0);
}

proof fn lemma_times_out_from(
    ceiling: nat,
    interval: nat,
    answers: spec_fn(nat) -> Probe,
    elapsed: nat,
)
    requires
        interval > 0,
        elapsed < ceiling + interval,
        forall|e: nat| #[trigger] answers(e) == Probe::NotReady,
    ensures
        outcome_from(ceiling, interval, answers, elapsed) is TimedOut,
        ceiling <= outcome_from(ceiling, interval, answers, elapsed)->TimedOut_elapsed < ceiling
            + interval,
    decreases ceiling + interval - elapsed,
{
    if elapsed < ceiling {
        lemma_times_out_from(ceiling, interval, answers, elapsed + interval);
    }
}

/// A probe that fails ends the wait at once, whatever the state: the
/// outcome is `IoFailure` at the elapsed time of the failing probe, with no
/// further delay, however far away the ceiling is.
pub proof fn lemma_probe_failure_ends_wait(state: PollState, answers: spec_fn(nat) -> Probe)
    requires
        answers(state.elapsed_ms as nat) == Probe::Failed,
    ensures
        state.verdict(Probe::Failed) == PollStep::IoFailure,
        state.after(Probe::Failed) == state,
        state.outcome(answers) == (PollOutcome::IoFailure { elapsed: state.elapsed_ms as nat }),
{
}

/// A file that is not ready before the time `t` and ready from `t` on,
/// with `t` below the ceiling: the wait ends in `Ready`, no earlier than
/// `t` and less than one poll interval after it. The step that reports it
/// asks for one more delay of one poll interval.
pub proof fn lemma_ready_in_time(policy: PollPolicy, answers: spec_fn(nat) -> Probe, t: nat)
    requires
        policy.wf(),
        t < policy.ceiling_ms,
        forall|e: nat| e < t ==> #[trigger] answers(e) == Probe::NotReady,
        forall|e: nat| e >= t ==> #[trigger] answers(e) == Probe::Ready,
    ensures
        policy.outcome(answers) is Ready,
        t <= policy.outcome(answers)->Ready_elapsed < t + policy.interval_ms,
        (PollState {
            policy,
            elapsed_ms: policy.outcome(answers)->Ready_elapsed as u64,
        }).verdict(Probe::Ready) == (PollStep::Ready { settle_ms: policy.interval_ms }),
{
    lemma_ready_from(policy.ceiling_ms as nat, policy.interval_ms as nat, answers, t, 0);
}

proof fn lemma_ready_from(
    ceiling: nat,
    interval: nat,
    answers: spec_fn(nat) -> Probe,
    t: nat,
    elapsed: nat,
)
    requires
        interval > 0,
        t < ceiling,
        elapsed < t + interval,
        forall|e: nat| e < t ==> #[trigger] answers(e) == Probe::NotReady,
        forall|e: nat| e >= t ==> #[trigger] answers(e) == Probe::Ready,
    ensures
        outcome_from(ceiling, interval, answers, elapsed) is Ready,
        t <= outcome_from(ceiling, interval, answers, elapsed)->Ready_elapsed < t + interval,
    decreases t + interval - elapsed,
{
    if elapsed < t {
        lemma_ready_from(ceiling, interval, answers, t, elapsed + interval);
    }
}

} // verus!
