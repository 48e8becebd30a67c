//! The desktop channel: a short popup of the platform.

use crate::notifications::notification_info::NotificationInfo;
use crate::DID_IT_RUN_NAME;
use vstd::prelude::*;
use vstd::string::StringExecFns;

verus! {

/// Why the desktop channel failed. Each platform reports its failures in
/// its own variants; the texts are those of the platform.
#[derive(Debug)]
pub enum DesktopError {
    /// The notification subsystem was initialised before.
    AlreadyInitialized,
    /// The notification daemon refused the popup.
    Glib(String),
    /// The notification subsystem could not be initialised.
    Other(String),
    /// The notification center refused the popup.
    MacOs(String),
    /// The toast interface handed out nothing where it owed an object.
    NoneError,
    /// The toast interface reported an error.
    WinRt(String),
}

/// What a [`DesktopError`] says to the user.
pub open spec fn desktop_error_text(error: DesktopError) -> Seq<char> {
    match error {
        DesktopError::AlreadyInitialized => "Desktop notifications are already initialized."@,
        DesktopError::Glib(message) => message@,
        DesktopError::Other(message) => message@,
        DesktopError::MacOs(message) => message@,
        DesktopError::NoneError => "The desktop notification interface returned nothing."@,
        DesktopError::WinRt(message) => message@,
    }
}

impl DesktopError {
    /// The error as a message for the user.
    pub fn to_string(&self) -> (text: String)
        ensures
            text@ == desktop_error_text(*self),
    {
        match self {
            DesktopError::AlreadyInitialized => String::from_str(
                "Desktop notifications are already initialized.",
            ),
            DesktopError::Glib(message) => message.clone(),
            DesktopError::Other(message) => message.clone(),
            DesktopError::MacOs(message) => message.clone(),
            DesktopError::NoneError => String::from_str(
                "The desktop notification interface returned nothing.",
            ),
            DesktopError::WinRt(message) => message.clone(),
        }
    }
}

/// The handle of the desktop channel. There is one only where the
/// notification subsystem of the platform came up.
#[derive(Debug)]
pub struct DesktopNotifier {
    _initialized: (),
}

/// A popup: a title and a short message below it.
#[derive(Clone, Debug, PartialEq, Eq)]
pub struct Toast {
    pub title: String,
    pub body: String,
}

impl DesktopNotifier {
    /// The desktop channel, given how initialising the notification
    /// subsystem of the platform went.
    pub fn new(initialized: Result<(), DesktopError>) -> (notifier: Result<
        DesktopNotifier,
        DesktopError,
    >)
        ensures
            match initialized {
                Ok(_) => notifier is Ok,
                Err(error) => notifier == Err::<DesktopNotifier, DesktopError>(error),
            },
    {
        match initialized {
            Ok(_) => Ok(DesktopNotifier { _initialized: () }),
            Err(error) => Err(error),
        }
    }

    /// The popup for a notification: the name of the program as its title,
    /// the summary as its message.
    pub fn dispatch_notification(&self, info: &NotificationInfo) -> (toast: Toast)
        ensures
            toast.title@ == DID_IT_RUN_NAME@,
            toast.body@ == info.brief@,
    {
        Toast { title: String::from_str(DID_IT_RUN_NAME), body: info.brief.clone() }
    }
}

} // verus!
