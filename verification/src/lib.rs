//! Runs a command and tells the user, on the desktop and by email, how it
//! went.

pub mod api;
pub mod cli;
pub mod config;
pub mod decimal;
pub mod duration_format;
pub mod exit_code;
pub mod incantation;
pub mod notifications;
pub mod oauth;
pub mod text_order;
pub mod texts;
pub mod types;
pub mod version;

use vstd::prelude::*;

verus! {

/// The name under which the program speaks to the user.
pub const DID_IT_RUN_NAME: &'static str = "Did it Run?";

/// The address from which the program sends its mail.
pub const DID_IT_RUN_EMAIL: &'static str = "notifications@didit.run";

} // verus!
