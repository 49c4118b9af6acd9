//! One export step: trigger a report, wait for each file it writes, and
//! move the file into the working directory.
//!
//! The step is a state machine. Each phase has one pending action, which
//! the driver performs; the driver then reports what happened, and the
//! machine moves on. A phase goes forward only on the one event that
//! confirms its action. Every other event is the failure of that action and
//! ends the step: nothing is tried twice but the readiness probe, and
//! nothing is tried after a failure.

use crate::poller::{
    lemma_never_ready_times_out, PollOutcome, PollPolicy, PollState, PollStep, Probe,
};
use crate::text::{decimal, decimal_string};
use vstd::prelude::*;
use vstd::string::*;

verus! {

/// What an export step consists of: the report to trigger, the directory
/// in which the client writes its files, and the names of the files to wait
/// for, in the order in which they are handled.
#[derive(Clone, Debug)]
pub struct ExportStep {
    pub report_id: String,
    pub source_dir: String,
    pub files: Vec<String>,
}

/// What the driver reports after it has performed the pending action.
#[derive(Clone, Copy, Debug, PartialEq, Eq, Structural)]
pub enum StepEvent {
    /// The client accepted the request to generate the report.
    Triggered,
    /// The readiness probe of the current file answered.
    Probed(Probe),
    /// The delay that was asked for has passed.
    Slept,
    /// The current file now lies in the working directory.
    Moved,
    /// The pending action raised an error.
    Failed,
}

/// Why a step ended without success.
#[derive(Clone, Copy, Debug, PartialEq, Eq, Structural)]
pub enum StepFault {
    /// The report could not be triggered.
    Automation,
    /// The file with index `file` was not ready when the poll ceiling was
    /// reached, after `elapsed_ms` of waiting.
    Timeout { file: usize, elapsed_ms: u64 },
    /// The wait for the file with index `file` broke down.
    WaitFailed { file: usize },
    /// The file with index `file` could not be moved.
    MoveFailed { file: usize },
}

/// Where a step stands.
#[derive(Clone, Copy, Debug, PartialEq, Eq, Structural)]
pub enum StepPhase {
    /// The report is being triggered.
    Triggering,
    /// A probe of the file is under way.
    Probing { file: usize, poll: PollState },
    /// The file was not ready; the delay before the next probe is running.
    Pausing { file: usize, poll: PollState },
    /// The file is ready; the one delay before it is used is running.
    Settling { file: usize },
    /// The file is being moved into the working directory.
    Moving { file: usize },
    /// Every file of the step has been moved.
    Done,
    /// The step has failed.
    Failed(StepFault),
}

/// What the driver has to do next.
#[derive(Clone, Copy, Debug, PartialEq, Eq, Structural)]
pub enum StepAction {
    /// Ask the client to generate the report of the step.
    Trigger,
    /// Probe whether the file with index `file` is ready.
    Probe { file: usize },
    /// Sleep for `ms` milliseconds.
    Sleep { ms: u64 },
    /// Move the file with index `file` from its source directory into the
    /// working directory, over a file of the same name if there is one.
    Move { file: usize },
    /// The step is complete.
    Finish,
    /// The step has failed; nothing more is to be done for it.
    Abort(StepFault),
}

/// A step in progress.
#[derive(Clone, Copy, Debug, PartialEq, Eq, Structural)]
pub struct StepRun {
    /// How many files the step waits for.
    pub file_count: usize,
    pub policy: PollPolicy,
    pub phase: StepPhase,
}

/// The directory into which the files of every step are moved, relative to
/// the directory the process works in.
pub open spec fn working_directory_text() -> Seq<char> {
    "./data"@
}

/// A waiting time as it is written in a message: in whole minutes where it
/// is a number of whole minutes, in milliseconds otherwise.
pub open spec fn duration_text(ms: nat) -> Seq<char> {
    if ms % 60_000 == 0 {
        decimal(ms / 60_000) + " minutes"@
    } else {
        decimal(ms) + " milliseconds"@
    }
}

/// The directory into which the files of every step are moved.
pub fn working_directory() -> (dir: String)
    ensures
        dir@ == working_directory_text(),
{
    String::from_str("./data")
}

/// Writes a waiting time for a message.
pub fn duration_string(ms: u64) -> (text: String)
    ensures
        text@ == duration_text(ms as nat),
{
    if ms % 60_000 == 0 {
        let mut text = decimal_string(ms / 60_000);
        text.append(" minutes");
        text
    } else {
        let mut text = decimal_string(ms);
        text.append(" milliseconds");
        text
    }
}

impl ExportStep {
    /// Where the client writes the file with index `file`.
    pub open spec fn source_path_text(&self, file: int) -> Seq<char> {
        self.source_dir@ + "/"@ + self.files@[file]@
    }

    /// Where the file with index `file` is moved to: into the working
    /// directory, under its own name.
    pub open spec fn destination_path_text(&self, file: int) -> Seq<char> {
        working_directory_text() + "/"@ + self.files@[file]@
    }

    /// What is said of a fault of this step. A fault that names a file the
    /// step does not have has no text.
    pub open spec fn fault_text(&self, fault: StepFault) -> Option<Seq<char>> {
        match fault {
            StepFault::Automation => Some(
                "Failed to generate report 7-10 for file "@ + self.report_id@,
            ),
            StepFault::Timeout { file, elapsed_ms } => if file < self.files@.len() {
                Some(
                    "Timeout. Waited for "@ + self.source_path_text(file as int)
                        + " to load for greater than "@ + duration_text(elapsed_ms as nat),
                )
            } else {
                None
            },
            StepFault::WaitFailed { file } => if file < self.files@.len() {
                Some(
                    "Encountered an unexpected IO error while waiting for "@
                        + self.source_path_text(file as int),
                )
            } else {
                None
            },
            StepFault::MoveFailed { file } => if file < self.files@.len() {
                Some("Failed to move "@ + self.files@[file as int]@)
            } else {
                None
            },
        }
    }

    /// The item data export: report `I`, which writes the item file and
    /// its posted variant.
    pub fn item_data() -> (step: ExportStep)
        ensures
            step.report_id@ == "I"@,
            step.source_dir@ == "C:/ABC Software/Database Export/Company001/Data"@,
            step.files@.len() == 2,
            step.files@[0]@ == "item.data"@,
            step.files@[1]@ == "item_posted.data"@,
    {
        let mut files: Vec<String> = Vec::new();
        files.push(String::from_str("item.data"));
        files.push(String::from_str("item_posted.data"));
        ExportStep {
            report_id: String::from_str("I"),
            source_dir: String::from_str("C:/ABC Software/Database Export/Company001/Data"),
            files,
        }
    }

    /// The customer data export: report `C`, which writes the customer
    /// file and its posted variant.
    pub fn customer_data() -> (step: ExportStep)
        ensures
            step.report_id@ == "C"@,
            step.source_dir@ == "C:/ABC Software/Database Export/Company001/Data"@,
            step.files@.len() == 2,
            step.files@[0]@ == "customer.data"@,
            step.files@[1]@ == "customer_posted.data"@,
    {
        let mut files: Vec<String> = Vec::new();
        files.push(String::from_str("customer.data"));
        files.push(String::from_str("customer_posted.data"));
        ExportStep {
            report_id: String::from_str("C"),
            source_dir: String::from_str("C:/ABC Software/Database Export/Company001/Data"),
            files,
        }
    }

    /// Starts a run of this step under `policy`.
    pub fn begin(&self, policy: PollPolicy) -> (run: StepRun)
        requires
            policy.wf(),
        ensures
            run == (StepRun {
                file_count: self.files.len(),
                policy,
                phase: StepPhase::Triggering,
            }),
            run.wf(),
    {
        StepRun::start(self.files.len(), policy)
    }

    /// The path at which the client writes the file with index `file`, if
    /// the step has such a file.
    pub fn source_path(&self, file: usize) -> (path: Option<String>)
        ensures
            path is Some <==> file < self.files.len(),
            path is Some ==> path->0@ == self.source_path_text(file as int),
    {
        if file < self.files.len() {
            let mut path = self.source_dir.clone();
            path.append("/");
            path.append(self.files[file].as_str());
            Some(path)
        } else {
            None
        }
    }

    /// The path to which the file with index `file` is moved, if the step
    /// has such a file.
    pub fn destination_path(&self, file: usize) -> (path: Option<String>)
        ensures
            path is Some <==> file < self.files.len(),
            path is Some ==> path->0@ == self.destination_path_text(file as int),
    {
        if file < self.files.len() {
            let mut path = working_directory();
            path.append("/");
            path.append(self.files[file].as_str());
            Some(path)
        } else {
            None
        }
    }

    /// The message that reports `fault`: it names the path of the file and,
    /// for a timeout, the time waited.
    pub fn fault_message(&self, fault: StepFault) -> (message: Option<String>)
        ensures
            message is Some <==> self.fault_text(fault) is Some,
            message is Some ==> message->0@ == self.fault_text(fault)->0,
    {
        match fault {
            StepFault::Automation => {
                let mut message = String::from_str("Failed to generate report 7-10 for file ");
                message.append(self.report_id.as_str());
                Some(message)
            },
            StepFault::Timeout { file, elapsed_ms } => match self.source_path(file) {
                Some(path) => {
                    let mut message = String::from_str("Timeout. Waited for ");
                    message.append(path.as_str());
                    message.append(" to load for greater than ");
                    message.append(duration_string(elapsed_ms).as_str());
                    Some(message)
                },
                None => None,
            },
            StepFault::WaitFailed { file } => match self.source_path(file) {
                Some(path) => {
                    let mut message = String::from_str(
                        "Encountered an unexpected IO error while waiting for ",
                    );
                    message.append(path.as_str());
                    Some(message)
                },
                None => None,
            },
            StepFault::MoveFailed { file } => {
                if file < self.files.len() {
                    let mut message = String::from_str("Failed to move ");
                    message.append(self.files[file].as_str());
                    Some(message)
                } else {
                    None
                }
            },
        }
    }
}

/// The phase in which the step turns to the file with index `file`: a
/// first probe under a fresh poll state, or `Done` past the last file.
pub open spec fn turn_to(file_count: usize, policy: PollPolicy, file: int) -> StepPhase {
    if 0 <= file < file_count {
        StepPhase::Probing { file: file as usize, poll: PollState { policy, elapsed_ms: 0 } }
    } else {
        StepPhase::Done
    }
}

/// The phase that follows `phase` when the driver reports `event`.
pub open spec fn next_phase(
    file_count: usize,
    policy: PollPolicy,
    phase: StepPhase,
    event: StepEvent,
) -> StepPhase {
    match phase {
        StepPhase::Triggering => if event == StepEvent::Triggered {
            turn_to(file_count, policy, 0)
        } else {
            StepPhase::Failed(StepFault::Automation)
        },
        StepPhase::Probing { file, poll } => match event {
            StepEvent::Probed(probe) => match poll.verdict(probe) {
                PollStep::Ready { settle_ms } => StepPhase::Settling { file },
                PollStep::Sleep { ms } => StepPhase::Pausing { file, poll: poll.after(probe) },
                PollStep::TimedOut { elapsed_ms } => StepPhase::Failed(
                    StepFault::Timeout { file, elapsed_ms },
                ),
                PollStep::IoFailure => StepPhase::Failed(StepFault::WaitFailed { file }),
            },
            _ => StepPhase::Failed(StepFault::WaitFailed { file }),
        },
        StepPhase::Pausing { file, poll } => if event == StepEvent::Slept {
            StepPhase::Probing { file, poll }
        } else {
            StepPhase::Failed(StepFault::WaitFailed { file })
        },
        StepPhase::Settling { file } => if event == StepEvent::Slept {
            StepPhase::Moving { file }
        } else {
            StepPhase::Failed(StepFault::WaitFailed { file })
        },
        StepPhase::Moving { file } => if event == StepEvent::Moved {
            turn_to(file_count, policy, file + 1)
        } else {
            StepPhase::Failed(StepFault::MoveFailed { file })
        },
        StepPhase::Done => StepPhase::Done,
        StepPhase::Failed(fault) => StepPhase::Failed(fault),
    }
}

/// The action that is pending in `phase`.
pub open spec fn action_of(policy: PollPolicy, phase: StepPhase) -> StepAction {
    match phase {
        StepPhase::Triggering => StepAction::Trigger,
        StepPhase::Probing { file, poll } => StepAction::Probe { file },
        StepPhase::Pausing { file, poll } => StepAction::Sleep { ms: policy.interval_ms },
        StepPhase::Settling { file } => StepAction::Sleep { ms: policy.interval_ms },
        StepPhase::Moving { file } => StepAction::Move { file },
        StepPhase::Done => StepAction::Finish,
        StepPhase::Failed(fault) => StepAction::Abort(fault),
    }
}

/// The phase that a step reaches from `phase` when the driver reports
/// `events`, one after the other.
pub open spec fn phase_from(
    file_count: usize,
    policy: PollPolicy,
    phase: StepPhase,
    events: Seq<StepEvent>,
) -> StepPhase
    decreases events.len(),
{
    if events.len() == 0 {
        phase
    } else {
        next_phase(
            file_count,
            policy,
            phase_from(file_count, policy, phase, events.drop_last()),
            events.last(),
        )
    }
}

/// The phase of a step after the driver has reported `events`, one after
/// the other, from the start of the step.
pub open spec fn phase_after(
    file_count: usize,
    policy: PollPolicy,
    events: Seq<StepEvent>,
) -> StepPhase {
    phase_from(file_count, policy, StepPhase::Triggering, events)
}

/// What a driver reports while it waits for a file, from the elapsed time
/// `elapsed` on, where `answers(e)` is what a probe answers after `e`
/// milliseconds: the answer of each probe, and after each `NotReady` below
/// the ceiling the end of the delay that follows it.
pub open spec fn wait_events(
    policy: PollPolicy,
    answers: spec_fn(nat) -> Probe,
    elapsed: nat,
) -> Seq<StepEvent>
    decreases policy.ceiling_ms + policy.interval_ms - elapsed,
{
    if answers(elapsed) == Probe::NotReady && elapsed < policy.ceiling_ms && policy.interval_ms
        > 0 {
        seq![StepEvent::Probed(Probe::NotReady), StepEvent::Slept] + wait_events(
            policy,
            answers,
            elapsed + policy.interval_ms as nat,
        )
    } else {
        seq![StepEvent::Probed(answers(elapsed))]
    }
}

/// How the wait for the file with index `file` ends in a step, for each
/// way in which a poll can end.
pub open spec fn phase_of_outcome(file: usize, outcome: PollOutcome) -> StepPhase {
    match outcome {
        PollOutcome::Ready { elapsed } => StepPhase::Settling { file },
        PollOutcome::TimedOut { elapsed } => StepPhase::Failed(
            StepFault::Timeout { file, elapsed_ms: elapsed as u64 },
        ),
        PollOutcome::IoFailure { elapsed } => StepPhase::Failed(StepFault::WaitFailed { file }),
    }
}

/// How many files lie behind a phase: the files listed before the one the
/// phase works on, and all files of the step once it is `Done`.
pub open spec fn files_behind(file_count: usize, phase: StepPhase) -> int {
    match phase {
        StepPhase::Probing { file, poll } => file as int,
        StepPhase::Pausing { file, poll } => file as int,
        StepPhase::Settling { file } => file as int,
        StepPhase::Moving { file } => file as int,
        StepPhase::Done => file_count as int,
        _ => 0,
    }
}

impl StepPhase {
    /// A phase fits a step when the file it works on is one of the step's
    /// and its poll state runs under the step's policy.
    pub open spec fn fits(&self, file_count: usize, policy: PollPolicy) -> bool {
        match *self {
            StepPhase::Probing { file, poll } => file < file_count && poll.policy == policy,
            StepPhase::Pausing { file, poll } => file < file_count && poll.policy == policy,
            StepPhase::Settling { file } => file < file_count,
            StepPhase::Moving { file } => file < file_count,
            _ => true,
        }
    }
}

impl StepRun {
    pub open spec fn wf(&self) -> bool {
        self.policy.wf() && self.phase.fits(self.file_count, self.policy)
    }

    /// A run of a step with `file_count` files, at its start.
    pub fn start(file_count: usize, policy: PollPolicy) -> (run: StepRun)
        requires
            policy.wf(),
        ensures
            run == (StepRun { file_count, policy, phase: StepPhase::Triggering }),
            run.wf(),
    {
        StepRun { file_count, policy, phase: StepPhase::Triggering }
    }

    /// The action that the driver has to perform now.
    pub fn pending(&self) -> (action: StepAction)
        ensures
            action == action_of(self.policy, self.phase),
    {
        match self.phase {
            StepPhase::Triggering => StepAction::Trigger,
            StepPhase::Probing { file, poll: _ } => StepAction::Probe { file },
            StepPhase::Pausing { file: _, poll: _ } => StepAction::Sleep {
                ms: self.policy.interval_ms,
            },
            StepPhase::Settling { file: _ } => StepAction::Sleep { ms: self.policy.interval_ms },
            StepPhase::Moving { file } => StepAction::Move { file },
            StepPhase::Done => StepAction::Finish,
            StepPhase::Failed(fault) => StepAction::Abort(fault),
        }
    }

    /// Whether the step has ended, in success or in failure.
    pub fn is_over(&self) -> (over: bool)
        ensures
            over == (self.phase is Done || self.phase is Failed),
    {
        match self.phase {
            StepPhase::Done => true,
            StepPhase::Failed(_) => true,
            _ => false,
        }
    }

    /// Whether the run is well formed, for a caller that did not get it
    /// from `start` and `advance`.
    pub fn is_valid(&self) -> (valid: bool)
        ensures
            valid == self.wf(),
    {
        self.policy.is_valid() && match self.phase {
            StepPhase::Probing { file, poll } => file < self.file_count && poll.policy
                == self.policy,
            StepPhase::Pausing { file, poll } => file < self.file_count && poll.policy
                == self.policy,
            StepPhase::Settling { file } => file < self.file_count,
            StepPhase::Moving { file } => file < self.file_count,
            _ => true,
        }
    }

    fn turn_to(&self, file: usize) -> (phase: StepPhase)
        ensures
            phase == turn_to(self.file_count, self.policy, file as int),
    {
        if file < self.file_count {
            StepPhase::Probing { file, poll: PollState::start(self.policy) }
        } else {
            StepPhase::Done
        }
    }

    /// Takes the driver's report on the pending action, moves to the next
    /// phase and returns the action that is pending there.
    pub fn advance(&mut self, event: StepEvent) -> (action: StepAction)
        requires
            old(self).wf(),
        ensures
            final(self).file_count == old(self).file_count,
            final(self).policy == old(self).policy,
            final(self).phase == next_phase(
                old(self).file_count,
                old(self).policy,
                old(self).phase,
                event,
            ),
            final(self).wf(),
            action == action_of(final(self).policy, final(self).phase),
    {
        let next = match self.phase {
            StepPhase::Triggering => match event {
                StepEvent::Triggered => self.turn_to(0),
                _ => StepPhase::Failed(StepFault::Automation),
            },
            StepPhase::Probing { file, poll } => match event {
                StepEvent::Probed(probe) => {
                    let mut poll = poll;
                    match poll.observe(probe) {
                        PollStep::Ready { settle_ms: _ } => StepPhase::Settling { file },
                        PollStep::Sleep { ms: _ } => StepPhase::Pausing { file, poll },
                        PollStep::TimedOut { elapsed_ms } => StepPhase::Failed(
                            StepFault::Timeout { file, elapsed_ms },
                        ),
                        PollStep::IoFailure => StepPhase::Failed(StepFault::WaitFailed { file }),
                    }
                },
                _ => StepPhase::Failed(StepFault::WaitFailed { file }),
            },
            StepPhase::Pausing { file, poll } => match event {
                StepEvent::Slept => StepPhase::Probing { file, poll },
                _ => StepPhase::Failed(StepFault::WaitFailed { file }),
            },
            StepPhase::Settling { file } => match event {
                StepEvent::Slept => StepPhase::Moving { file },
                _ => StepPhase::Failed(StepFault::WaitFailed { file }),
            },
            StepPhase::Moving { file } => match event {
                StepEvent::Moved => self.turn_to(file + 1),
                _ => StepPhase::Failed(StepFault::MoveFailed { file }),
            },
            StepPhase::Done => StepPhase::Done,
            StepPhase::Failed(fault) => StepPhase::Failed(fault),
        };
        self.phase = next;
        self.pending()
    }
}

/// Whatever the driver reports, the phase of a step fits the step.
pub proof fn lemma_phase_fits(file_count: usize, policy: PollPolicy, events: Seq<StepEvent>)
    ensures
        phase_after(file_count, policy, events).fits(file_count, policy),
    decreases events.len(),
{
    if events.len() > 0 {
        lemma_phase_fits(file_count, policy, events.drop_last());
    }
}

/// A step that has ended stays as it ended: once the phase is `Done` or
/// `Failed`, no later report changes it.
pub proof fn lemma_ended_step_stays(
    file_count: usize,
    policy: PollPolicy,
    events: Seq<StepEvent>,
    n: int,
)
    requires
        0 <= n <= events.len(),
        phase_after(file_count, policy, events.take(n)) is Done || phase_after(
            file_count,
            policy,
            events.take(n),
        ) is Failed,
    ensures
        phase_after(file_count, policy, events) == phase_after(file_count, policy, events.take(n)),
    decreases events.len(),
{
    if n == events.len() {
        assert(events.take(n) =~= events);
    } else {
        assert(events.drop_last().take(n) =~= events.take(n));
        lemma_ended_step_stays(file_count, policy, events.drop_last(), n);
    }
}

/// Fail-fast: when the step has failed after `n` reports, then after any
/// longer run of reports it is still in that failure, and the pending
/// action is to abort. A failure on one file therefore rules out every
/// later probe and every later move, of that file and of the files listed
/// after it.
pub proof fn lemma_failure_stops_the_step(
    file_count: usize,
    policy: PollPolicy,
    events: Seq<StepEvent>,
    n: int,
    m: int,
)
    requires
        0 <= n <= m <= events.len(),
        phase_after(file_count, policy, events.take(n)) is Failed,
    ensures
        phase_after(file_count, policy, events.take(m)) == phase_after(
            file_count,
            policy,
            events.take(n),
        ),
        action_of(policy, phase_after(file_count, policy, events.take(m))) is Abort,
{
    assert(events.take(m).take(n) =~= events.take(n));
    lemma_ended_step_stays(file_count, policy, events.take(m), n);
}

/// Files are handled strictly in the listed order: every file that lies
/// behind the phase of a step has been moved with success earlier in the
/// run. So a step works on a file only after each file listed before it was
/// moved, and it is `Done` only after each of its files was moved.
pub proof fn lemma_files_in_order(
    file_count: usize,
    policy: PollPolicy,
    events: Seq<StepEvent>,
    m: int,
    i: int,
)
    requires
        0 <= m <= events.len(),
        0 <= i < files_behind(file_count, phase_after(file_count, policy, events.take(m))),
    ensures
        exists|k: int|
            0 <= k < m && phase_after(file_count, policy, #[trigger] events.take(k)) == (
            StepPhase::Moving { file: i as usize }) && events[k] == StepEvent::Moved,
    decreases m,
{
    if m > 0 {
        let before = phase_after(file_count, policy, events.take(m - 1));
        assert(events.take(m).drop_last() =~= events.take(m - 1));
        assert(events.take(m).last() == events[m - 1]);
        assert(phase_after(file_count, policy, events.take(m)) == next_phase(
            file_count,
            policy,
            before,
            events[m - 1],
        ));
        lemma_phase_fits(file_count, policy, events.take(m - 1));
        if before == (StepPhase::Moving { file: i as usize }) && events[m - 1]
            == StepEvent::Moved {
            assert(phase_after(file_count, policy, events.take(m - 1)) == (StepPhase::Moving {
                file: i as usize,
            }));
        } else {
            lemma_files_in_order(file_count, policy, events, m - 1, i);
        }
    }
}

/// Reports that come one run after the other lead where the second run
/// leads from where the first one led.
pub proof fn lemma_phase_from_joined(
    file_count: usize,
    policy: PollPolicy,
    phase: StepPhase,
    first: Seq<StepEvent>,
    second: Seq<StepEvent>,
)
    ensures
        phase_from(file_count, policy, phase, first + second) == phase_from(
            file_count,
            policy,
            phase_from(file_count, policy, phase, first),
            second,
        ),
    decreases second.len(),
{
    if second.len() == 0 {
        assert(first + second =~= first);
    } else {
        assert((first + second).drop_last() =~= first + second.drop_last());
        assert((first + second).last() == second.last());
        lemma_phase_from_joined(file_count, policy, phase, first, second.drop_last());
    }
}

/// Inside a step the wait for a file ends as the poller says: where the
/// poll ends in `Ready` the step goes on to settle, where it ends in
/// `TimedOut` the step fails with a timeout that names the file and the
/// time waited, and where it ends in `IoFailure` the step fails on the
/// wait for that file.
pub proof fn lemma_wait_ends_as_polled(
    file_count: usize,
    policy: PollPolicy,
    file: usize,
    poll: PollState,
    answers: spec_fn(nat) -> Probe,
)
    requires
        policy.wf(),
        poll.policy == policy,
    ensures
        phase_from(
            file_count,
            policy,
            StepPhase::Probing { file, poll },
            wait_events(policy, answers, poll.elapsed_ms as nat),
        ) == phase_of_outcome(file, poll.outcome(answers)),
    decreases policy.ceiling_ms + policy.interval_ms - poll.elapsed_ms,
{
    let probing = StepPhase::Probing { file, poll };
    let elapsed = poll.elapsed_ms as nat;
    let answer = answers(elapsed);
    let one = seq![StepEvent::Probed(answer)];
    assert(one.drop_last() =~= Seq::<StepEvent>::empty());
    assert(phase_from(file_count, policy, probing, one.drop_last()) == probing);
    assert(phase_from(file_count, policy, probing, one) == next_phase(
        file_count,
        policy,
        probing,
        StepEvent::Probed(answer),
    ));
    if answer == Probe::NotReady && elapsed < policy.ceiling_ms {
        let later = poll.after(Probe::NotReady);
        let two = seq![StepEvent::Probed(Probe::NotReady), StepEvent::Slept];
        let rest = wait_events(policy, answers, elapsed + policy.interval_ms as nat);
        assert(two.drop_last() =~= one);
        assert(phase_from(file_count, policy, probing, two) == (StepPhase::Probing {
            file,
            poll: later,
        }));
        lemma_phase_from_joined(file_count, policy, probing, two, rest);
        lemma_wait_ends_as_polled(file_count, policy, file, later, answers);
    }
}

/// Inside a step a file that never becomes ready fails the step with a
/// timeout, and the time waited that the fault names lies in the interval
/// from the ceiling (included) to the ceiling plus one poll interval
/// (excluded).
pub proof fn lemma_step_times_out(
    file_count: usize,
    policy: PollPolicy,
    file: usize,
    answers: spec_fn(nat) -> Probe,
)
    requires
        policy.wf(),
        file < file_count,
        forall|e: nat| #[trigger] answers(e) == Probe::NotReady,
    ensures
        ({
            let end = phase_from(
                file_count,
                policy,
                turn_to(file_count, policy, file as int),
                wait_events(policy, answers, 0),
            );
            &&& end is Failed
            &&& end->Failed_0 is Timeout
            &&& end->Failed_0->Timeout_file == file
            &&& policy.ceiling_ms <= end->Failed_0->elapsed_ms < policy.ceiling_ms
                + policy.interval_ms
        }),
{
    let poll = PollState { policy, elapsed_ms: 0 };
    lemma_wait_ends_as_polled(file_count, policy, file, poll, answers);
    lemma_never_ready_times_out(policy, answers);
}

/// A file that is found ready is given exactly one more poll interval
/// before it is moved: the probe's `Ready` leads to one delay of one
/// interval, and the end of that delay leads to the move.
pub proof fn lemma_ready_file_settles_once(
    file_count: usize,
    policy: PollPolicy,
    file: usize,
    poll: PollState,
)
    ensures
        next_phase(
            file_count,
            policy,
            StepPhase::Probing { file, poll },
            StepEvent::Probed(Probe::Ready),
        ) == (StepPhase::Settling { file }),
        action_of(policy, StepPhase::Settling { file }) == (StepAction::Sleep {
            ms: policy.interval_ms,
        }),
        next_phase(file_count, policy, StepPhase::Settling { file }, StepEvent::Slept) == (
        StepPhase::Moving { file }),
        action_of(policy, StepPhase::Moving { file }) == (StepAction::Move { file }),
{
}

} // verus!
