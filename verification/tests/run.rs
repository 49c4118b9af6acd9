use export_data::export_step::{ExportStep, StepFault, StepPhase};
use export_data::orchestrator::{
    fault_message, Action, ErrorKind, Event, Fault, Orchestrator, Phase,
};
use export_data::Config;

fn actions(run: &mut Orchestrator, events: &[Event]) -> Vec<Action> {
    let mut seen = vec![run.pending()];
    for event in events {
        seen.push(run.advance(*event));
    }
    seen
}

fn steps() -> Vec<ExportStep> {
    vec![ExportStep::item_data(), ExportStep::customer_data()]
}

#[test]
fn run_starts_by_loading_the_configuration() {
    let run = Orchestrator::start(2);
    assert_eq!(run.step_count, 2);
    assert_eq!(run.phase, Phase::ConfigLoading);
    assert_eq!(run.pending(), Action::LoadConfig);
    assert!(!run.is_over());
}

#[test]
fn full_run_goes_through_every_phase_in_order() {
    let mut run = Orchestrator::start(2);
    let seen = actions(
        &mut run,
        &[
            Event::ConfigLoaded,
            Event::DirectoryReady,
            Event::SessionAcquired,
            Event::PopupAbsent,
            Event::LoggedIn,
            Event::StepCompleted,
            Event::StepCompleted,
        ],
    );
    assert_eq!(
        seen,
        vec![
            Action::LoadConfig,
            Action::EnsureWorkingDirectory,
            Action::AcquireSession,
            Action::CheckPopup,
            Action::Login,
            Action::RunStep { index: 0 },
            Action::RunStep { index: 1 },
            Action::Exit,
        ]
    );
    assert_eq!(run.phase, Phase::Done);
    assert!(run.is_over());
    assert_eq!(run.advance(Event::Failed), Action::Exit);
}

#[test]
fn missing_configuration_aborts_before_any_automation() {
    let mut run = Orchestrator::start(2);
    let seen = actions(
        &mut run,
        &[Event::ConfigMissing, Event::DirectoryReady, Event::SessionAcquired, Event::LoggedIn],
    );
    let abort = Action::Abort(Fault::ConfigMissing);
    assert_eq!(seen, vec![Action::LoadConfig, abort, abort, abort, abort]);
    assert_eq!(
        fault_message(Fault::ConfigMissing, "./nowhere/config.json", "", &steps()),
        Some(String::from("Failed to open config file at ./nowhere/config.json. Does it exist?"))
    );
}

#[test]
fn malformed_configuration_shows_the_expected_shape() {
    let mut run = Orchestrator::start(2);
    assert_eq!(run.advance(Event::ConfigMalformed), Action::Abort(Fault::ConfigMalformed));
    let expected = format!(
        "Config file is improperly formatted. Expected format: \n{:#?}\n",
        Config::example()
    );
    assert_eq!(Config::malformed_message(), expected);
    assert_eq!(fault_message(Fault::ConfigMalformed, "./config.json", "", &steps()), Some(expected));
}

#[test]
fn example_configuration_holds_the_word_string() {
    let config = Config::example();
    assert_eq!(config.abc_username, "String");
    assert_eq!(config.abc_password, "String");
    assert_eq!(config.admin_email, "String");
    assert_eq!(config.notifier_email, "String");
    assert_eq!(config.notifier_passwd, "String");
    assert_eq!(config.smtp_relay, "String");
    assert_eq!(config.smtp_port, 465);
}

#[test]
fn message_of_a_missing_configuration_names_the_path() {
    assert_eq!(
        Config::missing_message("./config.json"),
        "Failed to open config file at ./config.json. Does it exist?"
    );
}

#[test]
fn popup_prevents_login() {
    let mut run = Orchestrator::start(2);
    let seen = actions(
        &mut run,
        &[
            Event::ConfigLoaded,
            Event::DirectoryReady,
            Event::SessionAcquired,
            Event::PopupPresent,
            Event::PopupAbsent,
            Event::LoggedIn,
            Event::StepCompleted,
        ],
    );
    assert!(!seen.contains(&Action::Login));
    let abort = Action::Abort(Fault::UnexpectedPopup);
    assert_eq!(seen[3], Action::CheckPopup);
    assert_eq!(&seen[4..], &[abort, abort, abort, abort]);
    assert_eq!(
        fault_message(Fault::UnexpectedPopup, "", "Popup { title: \"Update\" }", &steps()),
        Some(String::from(
            "ABC has an unexpected popup after finding active ABC Client 4 instance: Popup { title: \"Update\" }"
        ))
    );
}

#[test]
fn failed_popup_check_prevents_login_too() {
    let mut run = Orchestrator::start(1);
    let seen = actions(
        &mut run,
        &[Event::ConfigLoaded, Event::DirectoryReady, Event::SessionAcquired, Event::Failed],
    );
    assert_eq!(seen[4], Action::Abort(Fault::UnexpectedPopup));
}

#[test]
fn each_phase_fails_with_its_own_fault() {
    let confirmed = [
        Event::ConfigLoaded,
        Event::DirectoryReady,
        Event::SessionAcquired,
        Event::PopupAbsent,
        Event::LoggedIn,
    ];
    let faults = [
        Fault::ConfigMissing,
        Fault::DirectorySetup,
        Fault::SessionNotFound,
        Fault::UnexpectedPopup,
        Fault::LoginRejected,
        Fault::Step { index: 0, fault: StepFault::Automation },
    ];
    for (reached, fault) in faults.iter().enumerate() {
        let mut run = Orchestrator::start(2);
        for event in &confirmed[..reached] {
            run.advance(*event);
        }
        assert_eq!(run.advance(Event::Failed), Action::Abort(*fault));
        assert_eq!(run.phase, Phase::Failed(*fault));
        assert!(run.is_over());
    }
}

#[test]
fn failed_step_aborts_the_remaining_steps() {
    let mut run = Orchestrator::start(2);
    for event in [
        Event::ConfigLoaded,
        Event::DirectoryReady,
        Event::SessionAcquired,
        Event::PopupAbsent,
        Event::LoggedIn,
    ] {
        run.advance(event);
    }
    let step_fault = StepFault::Timeout { file: 1, elapsed_ms: 180_000 };
    let fault = Fault::Step { index: 0, fault: step_fault };
    assert_eq!(run.advance(Event::StepFailed(step_fault)), Action::Abort(fault));
    assert_eq!(run.advance(Event::StepCompleted), Action::Abort(fault));
    assert_eq!(
        fault_message(fault, "", "", &steps()),
        Some(String::from(
            "Timeout. Waited for C:/ABC Software/Database Export/Company001/Data/item_posted.data to load for greater than 3 minutes"
        ))
    );
}

#[test]
fn run_without_steps_is_done_after_login() {
    let mut run = Orchestrator::start(0);
    let seen = actions(
        &mut run,
        &[
            Event::ConfigLoaded,
            Event::DirectoryReady,
            Event::SessionAcquired,
            Event::PopupAbsent,
            Event::LoggedIn,
        ],
    );
    assert_eq!(seen[5], Action::Exit);
}

#[test]
fn kinds_of_faults() {
    assert_eq!(Fault::ConfigMissing.kind(), ErrorKind::ConfigError);
    assert_eq!(Fault::ConfigMalformed.kind(), ErrorKind::ConfigError);
    assert_eq!(Fault::DirectorySetup.kind(), ErrorKind::IoFailure);
    assert_eq!(Fault::SessionNotFound.kind(), ErrorKind::SessionError);
    assert_eq!(Fault::UnexpectedPopup.kind(), ErrorKind::SessionError);
    assert_eq!(Fault::LoginRejected.kind(), ErrorKind::AuthError);
    let step = |fault| Fault::Step { index: 0, fault };
    assert_eq!(step(StepFault::Automation).kind(), ErrorKind::AutomationError);
    assert_eq!(step(StepFault::Timeout { file: 0, elapsed_ms: 1 }).kind(), ErrorKind::Timeout);
    assert_eq!(step(StepFault::WaitFailed { file: 0 }).kind(), ErrorKind::IoFailure);
    assert_eq!(step(StepFault::MoveFailed { file: 0 }).kind(), ErrorKind::IoFailure);
}

#[test]
fn fixed_messages_of_run_faults() {
    let steps = steps();
    assert_eq!(
        fault_message(Fault::DirectorySetup, "", "", &steps),
        Some(String::from("Failed to create data directory"))
    );
    assert_eq!(
        fault_message(Fault::SessionNotFound, "", "", &steps),
        Some(String::from("Failed to find active ABC Client 4 instance"))
    );
    assert_eq!(
        fault_message(Fault::LoginRejected, "", "", &steps),
        Some(String::from("Failed to login to ABC"))
    );
    assert_eq!(
        fault_message(Fault::Step { index: 1, fault: StepFault::Automation }, "", "", &steps),
        Some(String::from("Failed to generate report 7-10 for file C"))
    );
    assert_eq!(
        fault_message(Fault::Step { index: 2, fault: StepFault::Automation }, "", "", &steps),
        None
    );
}

#[test]
fn end_of_a_step_is_reported_to_the_run() {
    assert_eq!(Event::from_step(StepPhase::Done), Some(Event::StepCompleted));
    let fault = StepFault::MoveFailed { file: 1 };
    assert_eq!(Event::from_step(StepPhase::Failed(fault)), Some(Event::StepFailed(fault)));
    assert_eq!(Event::from_step(StepPhase::Triggering), None);
    assert_eq!(Event::from_step(StepPhase::Moving { file: 0 }), None);
}

#[test]
fn run_on_a_step_it_does_not_have_is_not_valid() {
    assert!(Orchestrator::start(2).is_valid());
    assert!(Orchestrator { step_count: 2, phase: Phase::ExportStep { index: 1 } }.is_valid());
    assert!(!Orchestrator { step_count: 2, phase: Phase::ExportStep { index: 2 } }.is_valid());
    assert!(Orchestrator { step_count: 0, phase: Phase::Done }.is_valid());
}
