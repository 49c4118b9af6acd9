//! The crash notifier: what the administrator is told when the run breaks
//! down, and the mail that tells it.
//!
//! The run itself sends no mail. On a fault it hands one text, the
//! diagnostic message, to a companion program as its only argument; the
//! companion turns that text into a mail. Neither side retries, and a fault
//! of the companion is reported nowhere but on its own error output.

use crate::orchestrator::ErrorKind;
use crate::text::{decimal, decimal_string};
use crate::Config;
use vstd::prelude::*;
use vstd::string::*;

verus! {

/// The place in the source at which a fault arose.
#[derive(Clone, Debug)]
pub struct Location {
    pub file: String,
    pub line: u32,
}

/// A mail that is ready to be handed to the mail relay: sender and
/// recipient in angle brackets, the relay and its port, and the account
/// that signs in to the relay.
#[derive(Clone, Debug)]
pub struct OutgoingMail {
    pub from: String,
    pub to: String,
    pub subject: String,
    pub body: String,
    pub relay: String,
    pub port: u16,
    pub username: String,
    pub password: String,
}

/// Why no mail could be made.
#[derive(Clone, Copy, Debug, PartialEq, Eq, Structural)]
pub enum MailFault {
    /// The address of the notifier is no mailbox.
    MissingFrom,
    /// The address of the administrator is no mailbox.
    MissingTo,
}

/// The program that delivers a diagnostic message, as the run calls it.
pub open spec fn notifier_program_text() -> Seq<char> {
    "./email-error.exe"@
}

/// The subject of every mail of the notifier.
pub open spec fn subject_text() -> Seq<char> {
    "ABC Export Data Notification"@
}

/// How a place in the source is written: file and line, or a fixed phrase
/// where the place is not known.
pub open spec fn location_text(location: Option<Location>) -> Seq<char> {
    match location {
        Some(place) => "file '"@ + place.file@ + "' at line "@ + decimal(place.line as nat),
        None => "unknown location"@,
    }
}

/// The diagnostic message for a fault that said `message` at `location`.
pub open spec fn diagnostic_text(message: Seq<char>, location: Option<Location>) -> Seq<char> {
    "A panic occurred:\n\nMessage: "@ + message + "\nLocation: "@ + location_text(location)
}

/// An address in angle brackets.
pub open spec fn angle_text(address: Seq<char>) -> Seq<char> {
    "<"@ + address + ">"@
}

/// Whether `lettre` reads `text` as a mailbox: the answer of its parser for
/// `Mailbox`, which depends on the text alone.
pub uninterp spec fn mailbox_parses(text: Seq<char>) -> bool;

/// Whether `result` is what making the mail for `message` under `config`
/// comes to, where `from_ok` and `to_ok` say whether the sender and the
/// recipient, in angle brackets, are mailboxes. The sender is looked at
/// first.
pub open spec fn is_panic_mail(
    config: Config,
    message: Seq<char>,
    from_ok: bool,
    to_ok: bool,
    result: Result<OutgoingMail, MailFault>,
) -> bool {
    if !from_ok {
        result == Err::<OutgoingMail, MailFault>(MailFault::MissingFrom)
    } else if !to_ok {
        result == Err::<OutgoingMail, MailFault>(MailFault::MissingTo)
    } else {
        &&& result is Ok
        &&& result->Ok_0.from@ == angle_text(config.notifier_email@)
        &&& result->Ok_0.to@ == angle_text(config.admin_email@)
        &&& result->Ok_0.subject@ == subject_text()
        &&& result->Ok_0.body@ == message
        &&& result->Ok_0.relay@ == config.smtp_relay@
        &&& result->Ok_0.port == config.smtp_port
        &&& result->Ok_0.username@ == config.notifier_email@
        &&& result->Ok_0.password@ == config.notifier_passwd@
    }
}

/// Asks `lettre` whether `text` is a mailbox, by parsing it with
/// `<Mailbox as FromStr>::from_str`. The parser reads the text and nothing
/// else, so its verdict is the one that `mailbox_parses` names.
#[verifier::external_body]
fn is_mailbox(text: &str) -> (ok: bool)
    ensures
        ok == mailbox_parses(text@),
{
    text.parse::<lettre::message::Mailbox>().is_ok()
}

/// The program that delivers a diagnostic message.
pub fn notifier_program() -> (program: String)
    ensures
        program@ == notifier_program_text(),
{
    String::from_str("./email-error.exe")
}

/// Writes the place of a fault.
pub fn location_string(location: &Option<Location>) -> (text: String)
    ensures
        text@ == location_text(*location),
{
    match location {
        Some(place) => {
            let mut text = String::from_str("file '");
            text.append(place.file.as_str());
            text.append("' at line ");
            text.append(decimal_string(place.line as u64).as_str());
            text
        },
        None => String::from_str("unknown location"),
    }
}

/// Puts together the diagnostic message for a fault: what the fault said,
/// and where it arose.
pub fn diagnostic_message(message: &str, location: &Option<Location>) -> (text: String)
    ensures
        text@ == diagnostic_text(message@, *location),
{
    let mut text = String::from_str("A panic occurred:\n\nMessage: ");
    text.append(message);
    text.append("\nLocation: ");
    text.append(location_string(location).as_str());
    text
}

/// Puts an address in angle brackets.
pub fn angle_address(address: &str) -> (text: String)
    ensures
        text@ == angle_text(address@),
{
    let mut text = String::from_str("<");
    text.append(address);
    text.append(">");
    text
}

/// Makes the mail that carries `message` to the administrator, given
/// whether the two addresses were found to be mailboxes.
pub fn assemble_panic_email(config: &Config, message: &str, from_ok: bool, to_ok: bool) -> (result:
    Result<OutgoingMail, MailFault>)
    ensures
        is_panic_mail(*config, message@, from_ok, to_ok, result),
{
    if !from_ok {
        Err(MailFault::MissingFrom)
    } else if !to_ok {
        Err(MailFault::MissingTo)
    } else {
        Ok(
            OutgoingMail {
                from: angle_address(config.notifier_email.as_str()),
                to: angle_address(config.admin_email.as_str()),
                subject: String::from_str("ABC Export Data Notification"),
                body: String::from_str(message),
                relay: config.smtp_relay.clone(),
                port: config.smtp_port,
                username: config.notifier_email.clone(),
                password: config.notifier_passwd.clone(),
            },
        )
    }
}

/// Makes the mail that carries `message` to the administrator: from the
/// notifier's address to the administrator's, both in angle brackets and
/// both checked by `lettre`, signed in to the relay as the notifier.
pub fn compose_panic_email(config: &Config, message: &str) -> (result: Result<
    OutgoingMail,
    MailFault,
>)
    ensures
        is_panic_mail(
            *config,
            message@,
            mailbox_parses(angle_text(config.notifier_email@)),
            mailbox_parses(angle_text(config.admin_email@)),
            result,
        ),
{
    let from = angle_address(config.notifier_email.as_str());
    let to = angle_address(config.admin_email.as_str());
    let from_ok = is_mailbox(from.as_str());
    let to_ok = is_mailbox(to.as_str());
    assemble_panic_email(config, message, from_ok, to_ok)
}

impl MailFault {
    /// A mail that cannot be made is a failure of delivery.
    pub fn kind(&self) -> (kind: ErrorKind)
        ensures
            kind == ErrorKind::TransportError,
    {
        ErrorKind::TransportError
    }
}

} // verus!
