//! What the command line asks for.

use crate::config::{MergeOptions, TimeoutInput, UserConfig, UserConfigView};
use crate::incantation::{Incantation, IncantationView};
use crate::notifications::email::EmailConfig;
use std::path::PathBuf;
use vstd::prelude::*;
use vstd::string::StringExecFns;

verus! {

/// A path in the file system. It is carried through and never looked into.
#[verifier::external_type_specification]
#[verifier::external_body]
pub struct ExPathBuf(PathBuf);

/// What parsing `text` as an unsigned 64-bit integer gives: the number, or
/// the message that says why the text is none.
pub uninterp spec fn parsed_timeout(text: Seq<char>) -> Result<TimeoutInput, Seq<char>>;

/// `str::parse::<u64>`: the number that the text spells, or the text of
/// the parse error. The outcome depends on the text alone.
#[verifier::external_body]
fn parse_timeout(text: &str) -> (parsed: Result<TimeoutInput, String>)
    ensures
        match parsed {
            Ok(seconds) => parsed_timeout(text@) == Ok::<TimeoutInput, Seq<char>>(seconds),
            Err(message) => parsed_timeout(text@) == Err::<TimeoutInput, Seq<char>>(message@),
        },
{
    text.parse::<TimeoutInput>().map_err(|error| error.to_string())
}

/// Why `timeout` is no timeout, given the message of the parser.
pub open spec fn timeout_complaint(timeout: Seq<char>, message: Seq<char>) -> Seq<char> {
    "Cannot parse integer timeout value \""@ + timeout + "\": "@ + message
}

/// The verdict on the text of a timeout, given what parsing it gave:
/// nothing to say where it is a number, a complaint where it is none.
pub fn timeout_verdict(timeout: &str, parsed: Result<TimeoutInput, String>) -> (verdict: Result<
    TimeoutInput,
    String,
>)
    ensures
        match parsed {
            Ok(seconds) => verdict == Ok::<TimeoutInput, String>(seconds),
            Err(message) => verdict matches Err(complaint) && complaint@ == timeout_complaint(
                timeout@,
                message@,
            ),
        },
{
    match parsed {
        Ok(seconds) => Ok(seconds),
        Err(message) => {
            let mut complaint = String::from_str("Cannot parse integer timeout value \"");
            complaint.append(timeout);
            complaint.append("\": ");
            complaint.append(message.as_str());
            Err(complaint)
        },
    }
}

/// The timeout that a text spells, in seconds, or why it spells none.
pub open spec fn checked_timeout(timeout: Seq<char>) -> Result<TimeoutInput, Seq<char>> {
    match parsed_timeout(timeout) {
        Ok(seconds) => Ok(seconds),
        Err(message) => Err(timeout_complaint(timeout, message)),
    }
}

/// Reads the text of a timeout.
pub fn read_timeout(timeout: &str) -> (result: Result<TimeoutInput, String>)
    ensures
        match checked_timeout(timeout@) {
            Ok(seconds) => result == Ok::<TimeoutInput, String>(seconds),
            Err(complaint) => result matches Err(text) && text@ == complaint,
        },
{
    timeout_verdict(timeout, parse_timeout(timeout))
}

/// Accepts the text of a timeout, or says why it is none.
pub fn validate_timeout(timeout: String) -> (result: Result<(), String>)
    ensures
        match checked_timeout(timeout@) {
            Ok(_) => result is Ok,
            Err(complaint) => result matches Err(text) && text@ == complaint,
        },
{
    match read_timeout(timeout.as_str()) {
        Ok(_) => Ok(()),
        Err(complaint) => Err(complaint),
    }
}

/// The command line as the argument parser found it.
#[derive(Clone, Debug)]
pub struct Arguments {
    /// The command to run.
    pub command: String,
    /// The arguments of the command.
    pub arguments: Vec<String>,
    /// The recipients named with `--email`, if the option was given.
    pub email: Option<Vec<String>>,
    /// Whether `--no-email` was given.
    pub no_email: bool,
    /// Whether `--no-validate` was given.
    pub no_validate: bool,
    /// The text given with `--timeout`, if the option was given.
    pub timeout: Option<String>,
    /// The path given with `--config`, if the option was given.
    pub config_file: Option<PathBuf>,
    /// The path given with `--credentials`, if the option was given.
    pub credentials_file: Option<PathBuf>,
}

/// What the command line asks for.
#[derive(Debug)]
pub struct CliOptions {
    pub incantation: Incantation,
    pub cli_config: UserConfig,
    pub config_file: Option<PathBuf>,
    pub credentials_file: Option<PathBuf>,
    pub merge_options: MergeOptions,
}

/// The settings that the command line gives: the recipients where it
/// names some, validation unless it is switched off, and the timeout where
/// it gives one. It says nothing of the schema version and of desktop
/// notifications.
pub open spec fn cli_config(
    email: Option<Seq<Seq<char>>>,
    no_validate: bool,
    timeout: Option<TimeoutInput>,
) -> UserConfigView {
    UserConfigView {
        version: None,
        desktop_notifications: None,
        email,
        validate: Some(!no_validate),
        timeout,
    }
}

impl CliOptions {
    /// Turns what the argument parser found into what the command line
    /// asks for. A timeout that is no number is refused with a complaint.
    pub fn from_arguments(arguments: Arguments) -> (result: Result<CliOptions, String>)
        ensures
            match arguments.timeout {
                Some(text) => match checked_timeout(text@) {
                    Ok(seconds) => result matches Ok(options) && options.selects(
                        arguments,
                        Some(seconds),
                    ),
                    Err(complaint) => result matches Err(message) && message@ == complaint,
                },
                None => result matches Ok(options) && options.selects(arguments, None),
            },
    {
        let Arguments {
            command,
            arguments,
            email,
            no_email,
            no_validate,
            timeout,
            config_file,
            credentials_file,
        } = arguments;
        let timeout = match timeout {
            Some(text) => match read_timeout(text.as_str()) {
                Ok(seconds) => Some(seconds),
                Err(complaint) => {
                    return Err(complaint);
                },
            },
            None => None,
        };
        let email = match email {
            Some(recipients) => Some(EmailConfig { recipients }),
            None => None,
        };
        Ok(
            CliOptions {
                incantation: Incantation { command, args: arguments },
                cli_config: UserConfig {
                    version: None,
                    desktop_notifications: None,
                    email,
                    validate: Some(!no_validate),
                    timeout,
                },
                config_file,
                credentials_file,
                merge_options: MergeOptions { no_email },
            },
        )
    }

    /// Whether these options are what `arguments` ask for, with the
    /// timeout read as `timeout`.
    pub open spec fn selects(self, arguments: Arguments, timeout: Option<TimeoutInput>) -> bool {
        &&& self.incantation@ == (IncantationView {
            command: arguments.command@,
            args: arguments.arguments.deep_view(),
        })
        &&& self.cli_config@ == cli_config(
            match arguments.email {
                Some(recipients) => Some(recipients.deep_view()),
                None => None,
            },
            arguments.no_validate,
            timeout,
        )
        &&& self.config_file == arguments.config_file
        &&& self.credentials_file == arguments.credentials_file
        &&& self.merge_options.no_email == arguments.no_email
    }
}

} // verus!
