use export_data::notifier::{
    angle_address, assemble_panic_email, compose_panic_email, diagnostic_message,
    location_string, notifier_program, Location, MailFault,
};
use export_data::orchestrator::ErrorKind;
use export_data::Config;

fn config() -> Config {
    Config {
        abc_username: String::from("operator"),
        abc_password: String::from("secret"),
        admin_email: String::from("b@x.com"),
        notifier_email: String::from("a@x.com"),
        notifier_passwd: String::from("mail-secret"),
        smtp_relay: String::from("smtp.example.com"),
        smtp_port: 465,
    }
}

#[test]
fn timeout_fault_is_reported_by_mail() {
    let fault = "Timeout. Waited for C:/ABC Software/Database Export/Company001/Data/item.data to load for greater than 3 minutes";
    let place = Some(Location { file: String::from("src/abc-export/main.rs"), line: 63 });
    let message = diagnostic_message(fault, &place);
    assert_eq!(
        message,
        "A panic occurred:\n\nMessage: Timeout. Waited for C:/ABC Software/Database Export/Company001/Data/item.data to load for greater than 3 minutes\nLocation: file 'src/abc-export/main.rs' at line 63"
    );
    let mail = compose_panic_email(&config(), &message).unwrap();
    assert_eq!(mail.from, "<a@x.com>");
    assert_eq!(mail.to, "<b@x.com>");
    assert_eq!(mail.subject, "ABC Export Data Notification");
    assert_eq!(mail.body, message);
    assert_eq!(mail.relay, "smtp.example.com");
    assert_eq!(mail.port, 465);
    assert_eq!(mail.username, "a@x.com");
    assert_eq!(mail.password, "mail-secret");
}

#[test]
fn fault_without_a_place_says_so() {
    assert_eq!(location_string(&None), "unknown location");
    assert_eq!(
        diagnostic_message("boom", &None),
        "A panic occurred:\n\nMessage: boom\nLocation: unknown location"
    );
}

#[test]
fn place_is_written_with_file_and_line() {
    let place = Some(Location { file: String::from("src/main.rs"), line: 0 });
    assert_eq!(location_string(&place), "file 'src/main.rs' at line 0");
    let place = Some(Location { file: String::from("a.rs"), line: u32::MAX });
    assert_eq!(location_string(&place), "file 'a.rs' at line 4294967295");
}

#[test]
fn address_in_angle_brackets() {
    assert_eq!(angle_address("a@x.com"), "<a@x.com>");
    assert_eq!(angle_address(""), "<>");
}

#[test]
fn notifier_program_is_the_companion() {
    assert_eq!(notifier_program(), "./email-error.exe");
}

#[test]
fn sender_that_is_no_mailbox_gives_missing_from() {
    let mut config = config();
    config.notifier_email = String::from("not an address");
    assert_eq!(compose_panic_email(&config, "boom").unwrap_err(), MailFault::MissingFrom);
}

#[test]
fn recipient_that_is_no_mailbox_gives_missing_to() {
    let mut config = config();
    config.admin_email = String::from("nobody@");
    assert_eq!(compose_panic_email(&config, "boom").unwrap_err(), MailFault::MissingTo);
}

#[test]
fn sender_is_looked_at_first() {
    let mut config = config();
    config.notifier_email = String::new();
    config.admin_email = String::new();
    assert_eq!(compose_panic_email(&config, "boom").unwrap_err(), MailFault::MissingFrom);
}

#[test]
fn example_configuration_has_no_mailboxes() {
    assert_eq!(
        compose_panic_email(&Config::example(), "boom").unwrap_err(),
        MailFault::MissingFrom
    );
}

#[test]
fn assembling_goes_by_the_verdicts_given() {
    let config = config();
    assert_eq!(
        assemble_panic_email(&config, "boom", false, true).unwrap_err(),
        MailFault::MissingFrom
    );
    assert_eq!(
        assemble_panic_email(&config, "boom", false, false).unwrap_err(),
        MailFault::MissingFrom
    );
    assert_eq!(
        assemble_panic_email(&config, "boom", true, false).unwrap_err(),
        MailFault::MissingTo
    );
    let mail = assemble_panic_email(&config, "boom", true, true).unwrap();
    assert_eq!(mail.from, "<a@x.com>");
    assert_eq!(mail.to, "<b@x.com>");
    assert_eq!(mail.body, "boom");
}

#[test]
fn mail_fault_is_a_transport_error() {
    assert_eq!(MailFault::MissingFrom.kind(), ErrorKind::TransportError);
    assert_eq!(MailFault::MissingTo.kind(), ErrorKind::TransportError);
}
