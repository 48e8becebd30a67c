//! The text of a notification, the same for every channel.

use crate::decimal::{i32_to_string, signed_decimal};
use crate::duration_format::{
    duration_format, duration_seconds, duration_subsec_nanos, elapsed_text,
};
use crate::exit_code::SUCCESS;
use crate::incantation::{invocation_text, IncantationView};
use crate::notifications::Event;
use vstd::prelude::*;
use vstd::std_specs::convert::FromSpecImpl;
use vstd::string::StringExecFns;

verus! {

/// What a notification says: a short summary, and the details as plain
/// text and as markup.
#[derive(Clone, Debug, PartialEq, Eq)]
pub struct NotificationInfo {
    pub brief: String,
    pub details: String,
    pub html_details: String,
}

/// The mathematical content of a [`NotificationInfo`].
pub struct NotificationInfoView {
    pub brief: Seq<char>,
    pub details: Seq<char>,
    pub html_details: Seq<char>,
}

impl View for NotificationInfo {
    type V = NotificationInfoView;

    open spec fn view(&self) -> NotificationInfoView {
        NotificationInfoView {
            brief: self.brief@,
            details: self.details@,
            html_details: self.html_details@,
        }
    }
}

/// The summary line: the command alone, and whether it succeeded.
pub open spec fn brief_text(command: Seq<char>, exit_code: int) -> Seq<char> {
    if exit_code == SUCCESS {
        "`"@ + command + "` succeeded"@
    } else {
        "`"@ + command + "` failed"@
    }
}

/// What follows the invocation in the details: the verdict, the exit code
/// of a failed run, and the elapsed time.
pub open spec fn verdict_text(exit_code: int, elapsed: Seq<char>) -> Seq<char> {
    if exit_code == SUCCESS {
        " succeeded in "@ + elapsed + "."@
    } else {
        " failed with exit code "@ + signed_decimal(exit_code) + " in "@ + elapsed + "."@
    }
}

/// The details in plain text, with the invocation between backticks.
pub open spec fn details_text(invocation: Seq<char>, exit_code: int, elapsed: Seq<char>) -> Seq<
    char,
> {
    "`"@ + invocation + "`"@ + verdict_text(exit_code, elapsed)
}

/// The details as markup, with the invocation in an inline-code element.
pub open spec fn html_details_text(
    invocation: Seq<char>,
    exit_code: int,
    elapsed: Seq<char>,
) -> Seq<char> {
    "<code>"@ + invocation + "</code>"@ + verdict_text(exit_code, elapsed)
}

/// What is said about a run of `incantation` that ended with `exit_code`
/// after the time that `elapsed` renders.
pub open spec fn finished_info(
    incantation: IncantationView,
    exit_code: int,
    elapsed: Seq<char>,
) -> NotificationInfoView {
    NotificationInfoView {
        brief: brief_text(incantation.command, exit_code),
        details: details_text(invocation_text(incantation), exit_code, elapsed),
        html_details: html_details_text(invocation_text(incantation), exit_code, elapsed),
    }
}

/// What is said about `event`.
pub open spec fn info_of(event: Event) -> NotificationInfoView {
    match event {
        Event::Finished { incantation, exit_code, elapsed_time } => finished_info(
            incantation@,
            exit_code as int,
            elapsed_text(
                duration_seconds(elapsed_time),
                duration_subsec_nanos(elapsed_time) / 1_000_000,
            ),
        ),
    }
}

fn verdict(exit_code: i32, elapsed: &str) -> (text: String)
    ensures
        text@ == verdict_text(exit_code as int, elapsed@),
{
    if exit_code == SUCCESS {
        let mut text = String::from_str(" succeeded in ");
        text.append(elapsed);
        text.append(".");
        text
    } else {
        let mut text = String::from_str(" failed with exit code ");
        text.append(i32_to_string(exit_code).as_str());
        text.append(" in ");
        text.append(elapsed);
        text.append(".");
        text
    }
}

impl From<Event> for NotificationInfo {
    /// Says what there is to say about `event`.
    fn from(event: Event) -> (info: NotificationInfo)
        ensures
            info@ == info_of(event),
    {
        match event {
            Event::Finished { incantation, exit_code, elapsed_time } => {
                let mut brief = String::from_str("`");
                brief.append(incantation.command.as_str());
                if exit_code == SUCCESS {
                    brief.append("` succeeded");
                } else {
                    brief.append("` failed");
                }
                let invocation = incantation.to_string();
                let elapsed = duration_format(&elapsed_time);
                let verdict = verdict(exit_code, elapsed.as_str());
                let mut details = String::from_str("`");
                details.append(invocation.as_str());
                details.append("`");
                details.append(verdict.as_str());
                let mut html_details = String::from_str("<code>");
                html_details.append(invocation.as_str());
                html_details.append("</code>");
                html_details.append(verdict.as_str());
                NotificationInfo { brief, details, html_details }
            },
        }
    }
}

/// The texts of the result are made anew, and no spec expression makes a
/// `String`: what `from` returns is stated on `from` itself, over views.
impl FromSpecImpl<Event> for NotificationInfo {
    open spec fn obeys_from_spec() -> bool {
        false
    }

    open spec fn from_spec(event: Event) -> NotificationInfo {
        arbitrary()
    }
}

} // verus!
