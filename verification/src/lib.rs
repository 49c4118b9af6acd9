//! Export completion polling and crash notification for an unattended
//! data export from a desktop accounting client.
//!
//! The crate holds the decisions of the export run: how long to wait for a
//! file, in which order the files of an export step are handled, which state
//! follows which, and what the administrator is told when the run breaks
//! down. Whoever drives it performs the actions the crate asks for (an
//! automation call, a readiness probe, a delay, a file move) and reports
//! back what happened.

use vstd::prelude::*;
use vstd::string::*;

pub mod export_step;
pub mod models;
pub mod notifier;
pub mod orchestrator;
pub mod poller;
pub mod text;

pub use models::{Address, Customer, Item, Vendor};

verus! {

/// An error of the JSON reader, carried as it came.
#[verifier::external_type_specification]
#[verifier::external_body]
pub struct ExJsonError(serde_json::Error);

/// What can go wrong on the data side of the export.
#[derive(Debug)]
pub enum AbcExportError {
    /// A text was not the JSON that was expected.
    SerdeJson(serde_json::Error),
    /// Anything else, in words.
    Custom(String),
}

impl From<serde_json::Error> for AbcExportError {
    fn from(value: serde_json::Error) -> (error: Self) {
        AbcExportError::SerdeJson(value)
    }
}

impl vstd::std_specs::convert::FromSpecImpl<serde_json::Error> for AbcExportError {
    open spec fn obeys_from_spec() -> bool {
        true
    }

    open spec fn from_spec(value: serde_json::Error) -> Self {
        AbcExportError::SerdeJson(value)
    }
}

impl AbcExportError {
    /// The error as text: its `Debug` form, written by `format!`, which for
    /// a JSON error holds what `serde_json` prints of it. Nothing is claimed
    /// of the text.
    #[verifier::external_body]
    pub fn to_string(&self) -> (text: String) {
        format!("{:?}", self)
    }
}

/// The configuration of a run: the credentials for the client and those of
/// the mail account that reports a breakdown. It is read once at the start
/// and never changed.
#[derive(Debug, Clone)]
pub struct Config {
    pub abc_username: String,
    pub abc_password: String,
    pub admin_email: String,
    pub notifier_email: String,
    pub notifier_passwd: String,
    pub smtp_relay: String,
    pub smtp_port: u16,
}

impl Config {
    /// The shape of a configuration as it is shown to whoever wrote a file
    /// that could not be read: each text field holds the word `String`, the
    /// port is 465.
    pub open spec fn expected_format_text() -> Seq<char> {
        "Config {\n    abc_username: \"String\",\n    abc_password: \"String\",\n    admin_email: \"String\",\n    notifier_email: \"String\",\n    notifier_passwd: \"String\",\n    smtp_relay: \"String\",\n    smtp_port: 465,\n}"@
    }

    /// The text that says that no configuration file could be opened at
    /// `path`.
    pub open spec fn missing_text(path: Seq<char>) -> Seq<char> {
        "Failed to open config file at "@ + path + ". Does it exist?"@
    }

    /// The text that says that the configuration file does not hold a
    /// configuration. It shows the shape that was expected.
    pub open spec fn malformed_text() -> Seq<char> {
        "Config file is improperly formatted. Expected format: \n"@
            + Self::expected_format_text() + "\n"@
    }

    /// A configuration that shows the expected shape.
    pub fn example() -> (config: Config)
        ensures
            config.abc_username@ == "String"@,
            config.abc_password@ == "String"@,
            config.admin_email@ == "String"@,
            config.notifier_email@ == "String"@,
            config.notifier_passwd@ == "String"@,
            config.smtp_relay@ == "String"@,
            config.smtp_port == 465,
    {
        Config {
            abc_username: String::from_str("String"),
            abc_password: String::from_str("String"),
            admin_email: String::from_str("String"),
            notifier_email: String::from_str("String"),
            notifier_passwd: String::from_str("String"),
            smtp_relay: String::from_str("String"),
            smtp_port: 465,
        }
    }

    /// The message for a configuration file that could not be opened.
    pub fn missing_message(path: &str) -> (message: String)
        ensures
            message@ == Self::missing_text(path@),
    {
        let mut message = String::from_str("Failed to open config file at ");
        message.append(path);
        message.append(". Does it exist?");
        message
    }

    /// The message for a configuration file that is not a configuration.
    pub fn malformed_message() -> (message: String)
        ensures
            message@ == Self::malformed_text(),
    {
        let mut message = String::from_str(
            "Config file is improperly formatted. Expected format: \n",
        );
        message.append(
            "Config {\n    abc_username: \"String\",\n    abc_password: \"String\",\n    admin_email: \"String\",\n    notifier_email: \"String\",\n    notifier_passwd: \"String\",\n    smtp_relay: \"String\",\n    smtp_port: 465,\n}",
        );
        message.append("\n");
        message
    }
}

} // verus!
