//! The run as a whole: configuration, working directory, session, popup
//! check, login, and then the export steps one after the other.
//!
//! The phases follow each other in one fixed order and never go back. Each
//! phase has one pending action; it goes forward only on the one event that
//! confirms that action, and any other event is its failure, which ends the
//! run. Nothing is retried here: the only repetition of the whole run is
//! the readiness probe inside an export step.

use crate::export_step::{ExportStep, StepFault, StepPhase};
use crate::Config;
use vstd::prelude::*;
use vstd::string::*;

verus! {

/// What the driver reports after it has performed the pending action.
#[derive(Clone, Copy, Debug, PartialEq, Eq, Structural)]
pub enum Event {
    /// The configuration file was read and holds a configuration.
    ConfigLoaded,
    /// The configuration file could not be opened.
    ConfigMissing,
    /// The configuration file does not hold a configuration.
    ConfigMalformed,
    /// The working directory exists now.
    DirectoryReady,
    /// A running client was found.
    SessionAcquired,
    /// The client shows no unexpected dialog.
    PopupAbsent,
    /// The client shows a dialog that nothing here accounts for.
    PopupPresent,
    /// The client accepted the credentials.
    LoggedIn,
    /// The current export step moved all its files.
    StepCompleted,
    /// The current export step failed.
    StepFailed(StepFault),
    /// The pending action raised an error.
    Failed,
}

/// Why a run ended without success.
#[derive(Clone, Copy, Debug, PartialEq, Eq, Structural)]
pub enum Fault {
    ConfigMissing,
    ConfigMalformed,
    DirectorySetup,
    SessionNotFound,
    UnexpectedPopup,
    LoginRejected,
    /// The export step with index `index` failed with `fault`.
    Step { index: usize, fault: StepFault },
}

/// The kinds of failure that the run and its notifier know.
#[derive(Clone, Copy, Debug, PartialEq, Eq, Structural)]
pub enum ErrorKind {
    ConfigError,
    SessionError,
    AuthError,
    AutomationError,
    Timeout,
    IoFailure,
    TransportError,
}

/// Where a run stands.
#[derive(Clone, Copy, Debug, PartialEq, Eq, Structural)]
pub enum Phase {
    ConfigLoading,
    DirectorySetup,
    SessionAcquisition,
    PopupCheck,
    Login,
    /// The export step with index `index` is running.
    ExportStep { index: usize },
    /// Every export step has completed.
    Done,
    Failed(Fault),
}

/// What the driver has to do next.
#[derive(Clone, Copy, Debug, PartialEq, Eq, Structural)]
pub enum Action {
    LoadConfig,
    EnsureWorkingDirectory,
    AcquireSession,
    CheckPopup,
    Login,
    /// Run the export step with index `index` to its end.
    RunStep { index: usize },
    /// The run has succeeded: leave with exit code 0.
    Exit,
    /// The run has failed: report the fault and end abnormally.
    Abort(Fault),
}

/// A run in progress.
#[derive(Clone, Copy, Debug, PartialEq, Eq, Structural)]
pub struct Orchestrator {
    /// How many export steps the run has.
    pub step_count: usize,
    pub phase: Phase,
}

/// The phase in which the run turns to the export step with index
/// `index`, or `Done` past the last step.
pub open spec fn turn_to_step(step_count: usize, index: int) -> Phase {
    if 0 <= index < step_count {
        Phase::ExportStep { index: index as usize }
    } else {
        Phase::Done
    }
}

/// The phase that follows `phase` when the driver reports `event`.
pub open spec fn next_phase(step_count: usize, phase: Phase, event: Event) -> Phase {
    match phase {
        Phase::ConfigLoading => if event == Event::ConfigLoaded {
            Phase::DirectorySetup
        } else if event == Event::ConfigMalformed {
            Phase::Failed(Fault::ConfigMalformed)
        } else {
            Phase::Failed(Fault::ConfigMissing)
        },
        Phase::DirectorySetup => if event == Event::DirectoryReady {
            Phase::SessionAcquisition
        } else {
            Phase::Failed(Fault::DirectorySetup)
        },
        Phase::SessionAcquisition => if event == Event::SessionAcquired {
            Phase::PopupCheck
        } else {
            Phase::Failed(Fault::SessionNotFound)
        },
        Phase::PopupCheck => if event == Event::PopupAbsent {
            Phase::Login
        } else {
            Phase::Failed(Fault::UnexpectedPopup)
        },
        Phase::Login => if event == Event::LoggedIn {
            turn_to_step(step_count, 0)
        } else {
            Phase::Failed(Fault::LoginRejected)
        },
        Phase::ExportStep { index } => match event {
            Event::StepCompleted => turn_to_step(step_count, index + 1),
            Event::StepFailed(fault) => Phase::Failed(Fault::Step { index, fault }),
            _ => Phase::Failed(Fault::Step { index, fault: StepFault::Automation }),
        },
        Phase::Done => Phase::Done,
        Phase::Failed(fault) => Phase::Failed(fault),
    }
}

/// The action that is pending in `phase`.
pub open spec fn action_of(phase: Phase) -> Action {
    match phase {
        Phase::ConfigLoading => Action::LoadConfig,
        Phase::DirectorySetup => Action::EnsureWorkingDirectory,
        Phase::SessionAcquisition => Action::AcquireSession,
        Phase::PopupCheck => Action::CheckPopup,
        Phase::Login => Action::Login,
        Phase::ExportStep { index } => Action::RunStep { index },
        Phase::Done => Action::Exit,
        Phase::Failed(fault) => Action::Abort(fault),
    }
}

/// The phase of a run after the driver has reported `events`, one after the
/// other, from the start.
pub open spec fn phase_after(step_count: usize, events: Seq<Event>) -> Phase
    decreases events.len(),
{
    if events.len() == 0 {
        Phase::ConfigLoading
    } else {
        next_phase(step_count, phase_after(step_count, events.drop_last()), events.last())
    }
}

/// The place of a phase in the order of the run: the number of actions
/// that were confirmed before it.
pub open spec fn rank(step_count: usize, phase: Phase) -> int {
    match phase {
        Phase::ConfigLoading => 0,
        Phase::DirectorySetup => 1,
        Phase::SessionAcquisition => 2,
        Phase::PopupCheck => 3,
        Phase::Login => 4,
        Phase::ExportStep { index } => 5 + index,
        Phase::Done => 5 + step_count,
        Phase::Failed(fault) => 6 + step_count,
    }
}

/// The one event that confirms the action with the place `k` in the order
/// of the run.
pub open spec fn confirming(k: int) -> Event {
    if k == 0 {
        Event::ConfigLoaded
    } else if k == 1 {
        Event::DirectoryReady
    } else if k == 2 {
        Event::SessionAcquired
    } else if k == 3 {
        Event::PopupAbsent
    } else if k == 4 {
        Event::LoggedIn
    } else {
        Event::StepCompleted
    }
}

impl Event {
    /// What the end of an export step means for the run: every file moved
    /// is `StepCompleted`, a fault is `StepFailed` with that fault. A step
    /// that has not ended means nothing yet.
    pub open spec fn of_step(phase: StepPhase) -> Option<Event> {
        match phase {
            StepPhase::Done => Some(Event::StepCompleted),
            StepPhase::Failed(fault) => Some(Event::StepFailed(fault)),
            _ => None,
        }
    }

    /// The event with which the end of an export step is reported to the
    /// run, if the step has ended.
    pub fn from_step(phase: StepPhase) -> (event: Option<Event>)
        ensures
            event == Self::of_step(phase),
    {
        match phase {
            StepPhase::Done => Some(Event::StepCompleted),
            StepPhase::Failed(fault) => Some(Event::StepFailed(fault)),
            _ => None,
        }
    }
}

impl Fault {
    /// The kind of failure that a fault belongs to.
    pub open spec fn kind_of(&self) -> ErrorKind {
        match *self {
            Fault::ConfigMissing => ErrorKind::ConfigError,
            Fault::ConfigMalformed => ErrorKind::ConfigError,
            Fault::DirectorySetup => ErrorKind::IoFailure,
            Fault::SessionNotFound => ErrorKind::SessionError,
            Fault::UnexpectedPopup => ErrorKind::SessionError,
            Fault::LoginRejected => ErrorKind::AuthError,
            Fault::Step { index, fault } => match fault {
                StepFault::Automation => ErrorKind::AutomationError,
                StepFault::Timeout { file, elapsed_ms } => ErrorKind::Timeout,
                StepFault::WaitFailed { file } => ErrorKind::IoFailure,
                StepFault::MoveFailed { file } => ErrorKind::IoFailure,
            },
        }
    }

    /// The kind of failure that the fault belongs to.
    pub fn kind(&self) -> (kind: ErrorKind)
        ensures
            kind == self.kind_of(),
    {
        match *self {
            Fault::ConfigMissing => ErrorKind::ConfigError,
            Fault::ConfigMalformed => ErrorKind::ConfigError,
            Fault::DirectorySetup => ErrorKind::IoFailure,
            Fault::SessionNotFound => ErrorKind::SessionError,
            Fault::UnexpectedPopup => ErrorKind::SessionError,
            Fault::LoginRejected => ErrorKind::AuthError,
            Fault::Step { index: _, fault } => match fault {
                StepFault::Automation => ErrorKind::AutomationError,
                StepFault::Timeout { file: _, elapsed_ms: _ } => ErrorKind::Timeout,
                StepFault::WaitFailed { file: _ } => ErrorKind::IoFailure,
                StepFault::MoveFailed { file: _ } => ErrorKind::IoFailure,
            },
        }
    }
}

impl Orchestrator {
    pub open spec fn wf(&self) -> bool {
        self.phase matches Phase::ExportStep { index } ==> index < self.step_count
    }

    /// A run with `step_count` export steps, at its start.
    pub fn start(step_count: usize) -> (run: Orchestrator)
        ensures
            run == (Orchestrator { step_count, phase: Phase::ConfigLoading }),
            run.wf(),
    {
        Orchestrator { step_count, phase: Phase::ConfigLoading }
    }

    /// The action that the driver has to perform now.
    pub fn pending(&self) -> (action: Action)
        ensures
            action == action_of(self.phase),
    {
        match self.phase {
            Phase::ConfigLoading => Action::LoadConfig,
            Phase::DirectorySetup => Action::EnsureWorkingDirectory,
            Phase::SessionAcquisition => Action::AcquireSession,
            Phase::PopupCheck => Action::CheckPopup,
            Phase::Login => Action::Login,
            Phase::ExportStep { index } => Action::RunStep { index },
            Phase::Done => Action::Exit,
            Phase::Failed(fault) => Action::Abort(fault),
        }
    }

    /// Whether the run has ended, in success or in failure.
    pub fn is_over(&self) -> (over: bool)
        ensures
            over == (self.phase is Done || self.phase is Failed),
    {
        match self.phase {
            Phase::Done => true,
            Phase::Failed(_) => true,
            _ => false,
        }
    }

    /// Whether the run is well formed, for a caller that did not get it
    /// from `start` and `advance`.
    pub fn is_valid(&self) -> (valid: bool)
        ensures
            valid == self.wf(),
    {
        match self.phase {
            Phase::ExportStep { index } => index < self.step_count,
            _ => true,
        }
    }

    fn turn_to_step(&self, index: usize) -> (phase: Phase)
        ensures
            phase == turn_to_step(self.step_count, index as int),
    {
        if index < self.step_count {
            Phase::ExportStep { index }
        } else {
            Phase::Done
        }
    }

    /// Takes the driver's report on the pending action, moves to the next
    /// phase and returns the action that is pending there.
    pub fn advance(&mut self, event: Event) -> (action: Action)
        requires
            old(self).wf(),
        ensures
            final(self).step_count == old(self).step_count,
            final(self).phase == next_phase(old(self).step_count, old(self).phase, event),
            final(self).wf(),
            action == action_of(final(self).phase),
    {
        let next = match self.phase {
            Phase::ConfigLoading => match event {
                Event::ConfigLoaded => Phase::DirectorySetup,
                Event::ConfigMalformed => Phase::Failed(Fault::ConfigMalformed),
                _ => Phase::Failed(Fault::ConfigMissing),
            },
            Phase::DirectorySetup => match event {
                Event::DirectoryReady => Phase::SessionAcquisition,
                _ => Phase::Failed(Fault::DirectorySetup),
            },
            Phase::SessionAcquisition => match event {
                Event::SessionAcquired => Phase::PopupCheck,
                _ => Phase::Failed(Fault::SessionNotFound),
            },
            Phase::PopupCheck => match event {
                Event::PopupAbsent => Phase::Login,
                _ => Phase::Failed(Fault::UnexpectedPopup),
            },
            Phase::Login => match event {
                Event::LoggedIn => self.turn_to_step(0),
                _ => Phase::Failed(Fault::LoginRejected),
            },
            Phase::ExportStep { index } => match event {
                Event::StepCompleted => self.turn_to_step(index + 1),
                Event::StepFailed(fault) => Phase::Failed(Fault::Step { index, fault }),
                _ => Phase::Failed(Fault::Step { index, fault: StepFault::Automation }),
            },
            Phase::Done => Phase::Done,
            Phase::Failed(fault) => Phase::Failed(fault),
        };
        self.phase = next;
        self.pending()
    }
}

/// What is said of a fault of the run, where the configuration was looked
/// for at `config_path`, the popup check described what it found as
/// `popup`, and the run has the export steps `steps`. A fault of a step
/// that the run does not have, or of a file that the step does not have,
/// has no text.
pub open spec fn fault_text(
    fault: Fault,
    config_path: Seq<char>,
    popup: Seq<char>,
    steps: Seq<ExportStep>,
) -> Option<Seq<char>> {
    match fault {
        Fault::ConfigMissing => Some(Config::missing_text(config_path)),
        Fault::ConfigMalformed => Some(Config::malformed_text()),
        Fault::DirectorySetup => Some("Failed to create data directory"@),
        Fault::SessionNotFound => Some("Failed to find active ABC Client 4 instance"@),
        Fault::UnexpectedPopup => Some(
            "ABC has an unexpected popup after finding active ABC Client 4 instance: "@ + popup,
        ),
        Fault::LoginRejected => Some("Failed to login to ABC"@),
        Fault::Step { index, fault } => if index < steps.len() {
            steps[index as int].fault_text(fault)
        } else {
            None
        },
    }
}

/// The message that reports `fault` to the administrator.
pub fn fault_message(fault: Fault, config_path: &str, popup: &str, steps: &Vec<ExportStep>) -> (message:
    Option<String>)
    ensures
        message is Some <==> fault_text(fault, config_path@, popup@, steps@) is Some,
        message is Some ==> message->0@ == fault_text(fault, config_path@, popup@, steps@)->0,
{
    match fault {
        Fault::ConfigMissing => Some(Config::missing_message(config_path)),
        Fault::ConfigMalformed => Some(Config::malformed_message()),
        Fault::DirectorySetup => Some(String::from_str("Failed to create data directory")),
        Fault::SessionNotFound => Some(
            String::from_str("Failed to find active ABC Client 4 instance"),
        ),
        Fault::UnexpectedPopup => {
            let mut message = String::from_str(
                "ABC has an unexpected popup after finding active ABC Client 4 instance: ",
            );
            message.append(popup);
            Some(message)
        },
        Fault::LoginRejected => Some(String::from_str("Failed to login to ABC")),
        Fault::Step { index, fault } => {
            if index < steps.len() {
                steps[index].fault_message(fault)
            } else {
                None
            }
        },
    }
}

/// A run that has ended stays as it ended: once the phase is `Done` or
/// `Failed`, no later report changes it.
pub proof fn lemma_ended_run_stays(step_count: usize, events: Seq<Event>, n: int)
    requires
        0 <= n <= events.len(),
        phase_after(step_count, events.take(n)) is Done || phase_after(
            step_count,
            events.take(n),
        ) is Failed,
    ensures
        phase_after(step_count, events) == phase_after(step_count, events.take(n)),
    decreases events.len(),
{
    if n == events.len() {
        assert(events.take(n) =~= events);
    } else {
        assert(events.drop_last().take(n) =~= events.take(n));
        lemma_ended_run_stays(step_count, events.drop_last(), n);
    }
}

/// The phases follow each other in one order, one confirmed action at a
/// time: a run that has not failed after `m` reports has confirmed as many
/// actions as it got reports (all of them, if it got more), and each of
/// these reports was the one event that confirms the action in its place.
/// So a run is `Done` only if every export step has completed, and it
/// reaches a phase only through every phase before it.
pub proof fn lemma_linear_order(step_count: usize, events: Seq<Event>, m: int)
    requires
        0 <= m <= events.len(),
        !(phase_after(step_count, events.take(m)) is Failed),
    ensures
        rank(step_count, phase_after(step_count, events.take(m))) == if m < 5 + step_count {
            m
        } else {
            5 + step_count
        },
        forall|k: int| 0 <= k < m && k < 5 + step_count ==> #[trigger] events[k] == confirming(k),
    decreases m,
{
    if m > 0 {
        let before = phase_after(step_count, events.take(m - 1));
        assert(events.take(m).drop_last() =~= events.take(m - 1));
        assert(events.take(m).last() == events[m - 1]);
        assert(phase_after(step_count, events.take(m)) == next_phase(
            step_count,
            before,
            events[m - 1],
        ));
        lemma_linear_order(step_count, events, m - 1);
    }
}

/// A run is `Done` only if every export step has completed: the reports
/// that led there were the confirming one for each action before the
/// steps, and `StepCompleted` for each step.
pub proof fn lemma_done_means_all_steps_completed(step_count: usize, events: Seq<Event>)
    requires
        phase_after(step_count, events) is Done,
    ensures
        events.len() >= 5 + step_count,
        forall|k: int| 0 <= k < 5 + step_count ==> #[trigger] events[k] == confirming(k),
        forall|i: int| 0 <= i < step_count ==> #[trigger] events[5 + i] == Event::StepCompleted,
{
    assert(events.take(events.len() as int) =~= events);
    lemma_linear_order(step_count, events, events.len() as int);
}

/// The popup check cuts the run short: when the check reports anything
/// but the absence of a popup, no login is ever attempted, however the run
/// is driven before and after.
pub proof fn lemma_popup_blocks_login(step_count: usize, events: Seq<Event>, k: int, m: int)
    requires
        0 <= k < events.len(),
        0 <= m <= events.len(),
        phase_after(step_count, events.take(k)) is PopupCheck,
        events[k] != Event::PopupAbsent,
    ensures
        !(action_of(phase_after(step_count, events.take(m))) is Login),
{
    lemma_linear_order(step_count, events, k);
    if phase_after(step_count, events.take(m)) is Login {
        lemma_linear_order(step_count, events, m);
    }
}

} // verus!
