//! The email channel: its settings, its credentials and its errors.

use crate::config::Config;
use crate::notifications::notification_info::NotificationInfo;
use crate::texts::{clone_texts, to_owned_texts};
use crate::types::Port;
use crate::{DID_IT_RUN_EMAIL, DID_IT_RUN_NAME};
use std::time::Duration;
use vstd::prelude::*;
use vstd::std_specs::convert::FromSpecImpl;
use vstd::string::StringExecFns;

verus! {

/// The port of a mail server that is used when the credentials name none.
pub const STARTTLS_PORT: Port = 587;

/// A way to authenticate to a mail server.
#[derive(Clone, Copy, Debug, PartialEq, Eq, Structural)]
pub enum Mechanism {
    Plain,
    Login,
    Xoauth2,
}

/// The mechanism by which the mailer authenticates, in the handshake and
/// on every send.
pub const AUTHENTICATION_MECHANISM: Mechanism = Mechanism::Plain;

/// A version of the TLS protocol.
#[derive(Clone, Copy, Debug, PartialEq, Eq, Structural)]
pub enum TlsProtocol {
    Sslv3,
    Tlsv10,
    Tlsv11,
    Tlsv12,
}

/// The oldest version of TLS that the mailer accepts.
pub const MINIMUM_TLS_VERSION: TlsProtocol = TlsProtocol::Tlsv12;

/// Whether every send asks the server for the UTF-8 extension.
pub const SMTP_UTF8: bool = true;

/// Who receives the notifications.
#[derive(Clone, Debug, PartialEq, Eq)]
pub struct EmailConfig {
    pub recipients: Vec<String>,
}

impl View for EmailConfig {
    type V = Seq<Seq<char>>;

    open spec fn view(&self) -> Seq<Seq<char>> {
        self.recipients.deep_view()
    }
}

impl EmailConfig {
    pub fn new(recipients: Vec<&str>) -> (config: EmailConfig)
        ensures
            config@ == recipients.deep_view(),
    {
        let owned = to_owned_texts(&recipients);
        EmailConfig { recipients: owned }
    }
}

/// What is needed to log in to a mail server.
#[derive(Clone, Debug, PartialEq, Eq)]
pub struct SmtpCredentials {
    hostname: String,
    port: Option<Port>,
    username: String,
    password: String,
}

/// The mathematical content of [`SmtpCredentials`].
pub struct SmtpCredentialsView {
    pub hostname: Seq<char>,
    pub port: Option<Port>,
    pub username: Seq<char>,
    pub password: Seq<char>,
}

impl View for SmtpCredentials {
    type V = SmtpCredentialsView;

    closed spec fn view(&self) -> SmtpCredentialsView {
        SmtpCredentialsView {
            hostname: self.hostname@,
            port: self.port,
            username: self.username@,
            password: self.password@,
        }
    }
}

impl SmtpCredentials {
    /// Credentials for the server `hostname` at `port`.
    pub fn new(hostname: &str, port: Port, username: &str, password: &str) -> (credentials:
        SmtpCredentials)
        ensures
            credentials@ == (SmtpCredentialsView {
                hostname: hostname@,
                port: Some(port),
                username: username@,
                password: password@,
            }),
    {
        SmtpCredentials {
            hostname: String::from_str(hostname),
            port: Some(port),
            username: String::from_str(username),
            password: String::from_str(password),
        }
    }

    /// Credentials that may leave the port open.
    pub fn from_parts(
        hostname: String,
        port: Option<Port>,
        username: String,
        password: String,
    ) -> (credentials: SmtpCredentials)
        ensures
            credentials@ == (SmtpCredentialsView {
                hostname: hostname@,
                port,
                username: username@,
                password: password@,
            }),
    {
        SmtpCredentials { hostname, port, username, password }
    }

    /// The host name of the server.
    pub fn hostname(&self) -> (hostname: &String)
        ensures
            hostname@ == self@.hostname,
    {
        &self.hostname
    }

    /// The port of the server, if one is named.
    pub fn port(&self) -> (port: Option<Port>)
        ensures
            port == self@.port,
    {
        self.port
    }

    /// The user name to log in with.
    pub fn username(&self) -> (username: &String)
        ensures
            username@ == self@.username,
    {
        &self.username
    }

    /// The password to log in with.
    pub fn password(&self) -> (password: &String)
        ensures
            password@ == self@.password,
    {
        &self.password
    }
}

/// What went wrong in an exchange with the mail server. Each variant
/// holds the text of the failure, as the mail client words it.
#[derive(Debug)]
pub enum SmtpFailure {
    /// The server answered with a 4xx code.
    Transient(String),
    /// The server answered with a 5xx code.
    Permanent(String),
    /// An answer of the server could not be parsed.
    ResponseParsing(String),
    /// The challenge of the server was no base64 text.
    ChallengeParsing(String),
    /// An answer of the server was no UTF-8 text.
    Utf8Parsing(String),
    /// The client was used wrongly.
    Client(String),
    /// The name of the server resolved to no address.
    Resolution(String),
    /// Reading or writing failed.
    Io(String),
    /// The TLS layer failed.
    Tls(String),
    /// An answer of the server broke the grammar.
    Parsing(String),
}

/// Why a message could not be built. Each variant holds the text of the
/// failure, as the message builder words it.
#[derive(Debug)]
pub enum EmailFailure {
    /// The sender or a recipient is no address.
    Envelope(String),
    /// The file name of an attachment could not be parsed.
    CannotParseFilename(String),
    /// Reading or writing failed.
    Io(String),
}

/// Why the email channel failed.
#[derive(Debug)]
pub enum MailerError {
    Io(String),
    LettreEmail(EmailFailure),
    MissingCredentials,
    NoEmailConfig,
    SmtpError(SmtpFailure),
    Tls(String),
}

/// The error for a failed exchange with the server while the mailer is set
/// up: failures of reading or writing and of the TLS layer are told apart,
/// every other one is a failure of the protocol.
pub open spec fn smtp_error(failure: SmtpFailure) -> MailerError {
    match failure {
        SmtpFailure::Io(message) => MailerError::Io(message),
        SmtpFailure::Tls(message) => MailerError::Tls(message),
        _ => MailerError::SmtpError(failure),
    }
}

impl From<SmtpFailure> for MailerError {
    fn from(failure: SmtpFailure) -> (error: MailerError) {
        match failure {
            SmtpFailure::Io(message) => MailerError::Io(message),
            SmtpFailure::Tls(message) => MailerError::Tls(message),
            _ => MailerError::SmtpError(failure),
        }
    }
}

impl FromSpecImpl<SmtpFailure> for MailerError {
    open spec fn obeys_from_spec() -> bool {
        true
    }

    open spec fn from_spec(failure: SmtpFailure) -> MailerError {
        smtp_error(failure)
    }
}

/// The error for a message that could not be built: a failure of reading
/// or writing is told apart from the others.
pub open spec fn email_error(failure: EmailFailure) -> MailerError {
    match failure {
        EmailFailure::Io(message) => MailerError::Io(message),
        _ => MailerError::LettreEmail(failure),
    }
}

impl From<EmailFailure> for MailerError {
    fn from(failure: EmailFailure) -> (error: MailerError) {
        match failure {
            EmailFailure::Io(message) => MailerError::Io(message),
            _ => MailerError::LettreEmail(failure),
        }
    }
}

impl FromSpecImpl<EmailFailure> for MailerError {
    open spec fn obeys_from_spec() -> bool {
        true
    }

    open spec fn from_spec(failure: EmailFailure) -> MailerError {
        email_error(failure)
    }
}

/// What an [`SmtpFailure`] says to the user.
pub open spec fn smtp_failure_text(failure: SmtpFailure) -> Seq<char> {
    match failure {
        SmtpFailure::Transient(message) => message@,
        SmtpFailure::Permanent(message) => message@,
        SmtpFailure::ResponseParsing(message) => message@,
        SmtpFailure::ChallengeParsing(message) => message@,
        SmtpFailure::Utf8Parsing(message) => message@,
        SmtpFailure::Client(message) => message@,
        SmtpFailure::Resolution(message) => message@,
        SmtpFailure::Io(message) => message@,
        SmtpFailure::Tls(message) => message@,
        SmtpFailure::Parsing(message) => message@,
    }
}

/// What an [`EmailFailure`] says to the user.
pub open spec fn email_failure_text(failure: EmailFailure) -> Seq<char> {
    match failure {
        EmailFailure::Envelope(message) => message@,
        EmailFailure::CannotParseFilename(message) => message@,
        EmailFailure::Io(message) => message@,
    }
}

/// What a [`MailerError`] says to the user.
pub open spec fn mailer_error_text(error: MailerError) -> Seq<char> {
    match error {
        MailerError::Io(message) => "IO error: "@ + message@,
        MailerError::LettreEmail(failure) => email_failure_text(failure),
        MailerError::MissingCredentials => "No smtp credentials provided."@,
        MailerError::NoEmailConfig => "No email config provided."@,
        MailerError::SmtpError(failure) => smtp_failure_text(failure),
        MailerError::Tls(message) => message@,
    }
}

impl SmtpFailure {
    /// The failure as a message for the user.
    pub fn to_string(&self) -> (text: String)
        ensures
            text@ == smtp_failure_text(*self),
    {
        match self {
            SmtpFailure::Transient(message) => message.clone(),
            SmtpFailure::Permanent(message) => message.clone(),
            SmtpFailure::ResponseParsing(message) => message.clone(),
            SmtpFailure::ChallengeParsing(message) => message.clone(),
            SmtpFailure::Utf8Parsing(message) => message.clone(),
            SmtpFailure::Client(message) => message.clone(),
            SmtpFailure::Resolution(message) => message.clone(),
            SmtpFailure::Io(message) => message.clone(),
            SmtpFailure::Tls(message) => message.clone(),
            SmtpFailure::Parsing(message) => message.clone(),
        }
    }
}

impl EmailFailure {
    /// The failure as a message for the user.
    pub fn to_string(&self) -> (text: String)
        ensures
            text@ == email_failure_text(*self),
    {
        match self {
            EmailFailure::Envelope(message) => message.clone(),
            EmailFailure::CannotParseFilename(message) => message.clone(),
            EmailFailure::Io(message) => message.clone(),
        }
    }
}

impl MailerError {
    /// The error as a message for the user.
    pub fn to_string(&self) -> (text: String)
        ensures
            text@ == mailer_error_text(*self),
    {
        match self {
            MailerError::Io(message) => {
                let mut text = String::from_str("IO error: ");
                text.append(message.as_str());
                text
            },
            MailerError::LettreEmail(failure) => failure.to_string(),
            MailerError::MissingCredentials => String::from_str("No smtp credentials provided."),
            MailerError::NoEmailConfig => String::from_str("No email config provided."),
            MailerError::SmtpError(failure) => failure.to_string(),
            MailerError::Tls(message) => message.clone(),
        }
    }
}

/// How one step of setting up the mailer failed.
#[derive(Debug)]
pub enum MailerFailure {
    /// The name of the server could be looked up, and no address came
    /// back. The text is that of the mail client for a name that does not
    /// resolve.
    NoAddress(String),
    /// Reading or writing failed: while looking up the name of the server,
    /// or while the connection was upgraded to TLS.
    Io(String),
    /// The TLS client context could not be built.
    Tls(String),
    /// Connecting, a command, or building the transport failed.
    Smtp(SmtpFailure),
}

/// The error with which setting up the mailer ends when a step fails.
pub open spec fn setup_error(failure: MailerFailure) -> MailerError {
    match failure {
        MailerFailure::NoAddress(message) => MailerError::SmtpError(
            SmtpFailure::Resolution(message),
        ),
        MailerFailure::Io(message) => MailerError::Io(message),
        MailerFailure::Tls(message) => MailerError::Tls(message),
        MailerFailure::Smtp(failure) => smtp_error(failure),
    }
}

/// How sending one message failed.
#[derive(Debug)]
pub enum SendFailure {
    /// The message could not be built.
    Malformed(EmailFailure),
    /// The server did not take the message.
    Rejected(SmtpFailure),
}

/// The error with which a send ends when it fails. Unlike in the setup, a
/// failure of the exchange with the server is a protocol error whatever
/// lies behind it.
pub open spec fn send_error(failure: SendFailure) -> MailerError {
    match failure {
        SendFailure::Malformed(failure) => MailerError::LettreEmail(failure),
        SendFailure::Rejected(failure) => MailerError::SmtpError(failure),
    }
}

impl MailerError {
    /// The error for a failed step of the setup.
    pub fn from_setup(failure: MailerFailure) -> (error: MailerError)
        ensures
            error == setup_error(failure),
    {
        match failure {
            MailerFailure::NoAddress(message) => MailerError::SmtpError(
                SmtpFailure::Resolution(message),
            ),
            MailerFailure::Io(message) => MailerError::Io(message),
            MailerFailure::Tls(message) => MailerError::Tls(message),
            MailerFailure::Smtp(failure) => MailerError::from(failure),
        }
    }

    /// The error for a failed send.
    pub fn from_send(failure: SendFailure) -> (error: MailerError)
        ensures
            error == send_error(failure),
    {
        match failure {
            SendFailure::Malformed(failure) => MailerError::LettreEmail(failure),
            SendFailure::Rejected(failure) => MailerError::SmtpError(failure),
        }
    }
}

/// A command of the handshake.
#[derive(Clone, Copy, Debug, PartialEq, Eq, Structural)]
pub enum SmtpCommand {
    /// The greeting, with the name of this machine.
    Ehlo,
    /// The request to go on under TLS.
    StartTls,
    /// The login, by [`AUTHENTICATION_MECHANISM`] with the user name and
    /// the password of the credentials.
    Auth,
    /// The farewell.
    Quit,
}

/// The step of the setup that is due next. Something outside performs it
/// and reports how it went.
#[derive(Clone, Copy, Debug, PartialEq, Eq, Structural)]
pub enum Stage {
    /// Look up the host name and the port of the server; the first
    /// address counts.
    Resolve,
    /// Build the TLS client context for the host name, refusing every
    /// protocol below [`MINIMUM_TLS_VERSION`].
    TlsContext,
    /// Open a plain connection to the address, within the timeout if
    /// there is one.
    Connect,
    /// Greet the server.
    Greet,
    /// Ask the server to go on under TLS.
    StartTls,
    /// Upgrade the connection in place with the TLS client context.
    UpgradeTls,
    /// Greet the server again: what was said before TLS does not count.
    Regreet,
    /// Log in with the credentials.
    Authenticate,
    /// Take leave; the connection of the handshake is not used again.
    Quit,
    /// Build the transport for the later sends over the address, with the
    /// credentials, [`AUTHENTICATION_MECHANISM`] and [`SMTP_UTF8`].
    Transport,
    /// Nothing is left to do.
    Ready,
}

/// The stage that follows `stage` once its step is done. The handshake,
/// from connecting to taking leave, is run only where the credentials are
/// to be validated.
pub open spec fn next_stage(stage: Stage, validate: bool) -> Stage {
    match stage {
        Stage::Resolve => Stage::TlsContext,
        Stage::TlsContext => if validate {
            Stage::Connect
        } else {
            Stage::Transport
        },
        Stage::Connect => Stage::Greet,
        Stage::Greet => Stage::StartTls,
        Stage::StartTls => Stage::UpgradeTls,
        Stage::UpgradeTls => Stage::Regreet,
        Stage::Regreet => Stage::Authenticate,
        Stage::Authenticate => Stage::Quit,
        Stage::Quit => Stage::Transport,
        Stage::Transport => Stage::Ready,
        Stage::Ready => Stage::Ready,
    }
}

/// The command that the step of `stage` sends, if it sends one.
pub open spec fn command_of(stage: Stage) -> Option<SmtpCommand> {
    match stage {
        Stage::Greet => Some(SmtpCommand::Ehlo),
        Stage::StartTls => Some(SmtpCommand::StartTls),
        Stage::Regreet => Some(SmtpCommand::Ehlo),
        Stage::Authenticate => Some(SmtpCommand::Auth),
        Stage::Quit => Some(SmtpCommand::Quit),
        _ => None,
    }
}

/// How many steps lie between `stage` and the end at most.
pub open spec fn steps_left(stage: Stage) -> nat {
    match stage {
        Stage::Resolve => 10,
        Stage::TlsContext => 9,
        Stage::Connect => 8,
        Stage::Greet => 7,
        Stage::StartTls => 6,
        Stage::UpgradeTls => 5,
        Stage::Regreet => 4,
        Stage::Authenticate => 3,
        Stage::Quit => 2,
        Stage::Transport => 1,
        Stage::Ready => 0,
    }
}

/// The steps that are performed from `stage` on when none fails, in order.
pub open spec fn steps_from(stage: Stage, validate: bool) -> Seq<Stage>
    decreases steps_left(stage),
{
    if stage == Stage::Ready {
        Seq::<Stage>::empty()
    } else {
        seq![stage] + steps_from(next_stage(stage, validate), validate)
    }
}

/// With validation the setup looks up the server, builds the TLS context,
/// runs the whole handshake (connect, greet, STARTTLS, upgrade, greet
/// again, log in, take leave) and only then builds the transport. Without
/// validation it goes from the TLS context straight to the transport.
pub proof fn lemma_setup_steps()
    ensures
        steps_from(Stage::Resolve, true) == seq![
            Stage::Resolve,
            Stage::TlsContext,
            Stage::Connect,
            Stage::Greet,
            Stage::StartTls,
            Stage::UpgradeTls,
            Stage::Regreet,
            Stage::Authenticate,
            Stage::Quit,
            Stage::Transport,
        ],
        steps_from(Stage::Resolve, false) == seq![
            Stage::Resolve,
            Stage::TlsContext,
            Stage::Transport,
        ],
{
    reveal_with_fuel(steps_from, 12);
    assert(steps_from(Stage::Resolve, true) =~= seq![
        Stage::Resolve,
        Stage::TlsContext,
        Stage::Connect,
        Stage::Greet,
        Stage::StartTls,
        Stage::UpgradeTls,
        Stage::Regreet,
        Stage::Authenticate,
        Stage::Quit,
        Stage::Transport,
    ]);
    assert(steps_from(Stage::Resolve, false) =~= seq![
        Stage::Resolve,
        Stage::TlsContext,
        Stage::Transport,
    ]);
}

/// The commands that are sent from `stage` on when no step fails, in
/// order.
pub open spec fn commands_from(stage: Stage, validate: bool) -> Seq<SmtpCommand>
    decreases steps_left(stage),
{
    if stage == Stage::Ready {
        Seq::<SmtpCommand>::empty()
    } else {
        let rest = commands_from(next_stage(stage, validate), validate);
        match command_of(stage) {
            Some(command) => seq![command] + rest,
            None => rest,
        }
    }
}

/// With validation the server is greeted, asked for TLS, greeted again
/// once the connection is upgraded, logged in to, and taken leave of, in
/// this order. Without validation no command is sent at all.
pub proof fn lemma_handshake_commands()
    ensures
        commands_from(Stage::Resolve, true) == seq![
            SmtpCommand::Ehlo,
            SmtpCommand::StartTls,
            SmtpCommand::Ehlo,
            SmtpCommand::Auth,
            SmtpCommand::Quit,
        ],
        commands_from(Stage::Resolve, false) == Seq::<SmtpCommand>::empty(),
{
    reveal_with_fuel(commands_from, 12);
    assert(commands_from(Stage::Resolve, true) =~= seq![
        SmtpCommand::Ehlo,
        SmtpCommand::StartTls,
        SmtpCommand::Ehlo,
        SmtpCommand::Auth,
        SmtpCommand::Quit,
    ]);
    assert(commands_from(Stage::Resolve, false) =~= Seq::<SmtpCommand>::empty());
}

/// A mailer that is being set up: the settings it was asked for, and the
/// step that is due next.
#[derive(Debug)]
pub struct MailerSetup {
    config: EmailConfig,
    credentials: SmtpCredentials,
    validate: bool,
    timeout: Option<Duration>,
    stage: Stage,
}

/// The mathematical content of a [`MailerSetup`].
pub struct MailerSetupView {
    pub recipients: Seq<Seq<char>>,
    pub credentials: SmtpCredentialsView,
    pub validate: bool,
    pub timeout: Option<Duration>,
    pub stage: Stage,
}

impl View for MailerSetup {
    type V = MailerSetupView;

    closed spec fn view(&self) -> MailerSetupView {
        MailerSetupView {
            recipients: self.config@,
            credentials: self.credentials@,
            validate: self.validate,
            timeout: self.timeout,
            stage: self.stage,
        }
    }
}

/// The setup as it stands after the step that was due went as `outcome`
/// says: one stage further, or ended by the error of the failure.
pub open spec fn advanced(setup: MailerSetupView, outcome: Result<(), MailerFailure>) -> Result<
    MailerSetupView,
    MailerError,
> {
    match outcome {
        Ok(_) => Ok(MailerSetupView { stage: next_stage(setup.stage, setup.validate), ..setup }),
        Err(failure) => Err(setup_error(failure)),
    }
}

/// The port at which the server is reached.
pub open spec fn port_of(credentials: SmtpCredentialsView) -> Port {
    match credentials.port {
        Some(port) => port,
        None => STARTTLS_PORT,
    }
}

/// The email channel, set up: it knows who receives the notifications.
#[derive(Debug)]
pub struct Mailer {
    config: EmailConfig,
}

impl View for Mailer {
    type V = Seq<Seq<char>>;

    closed spec fn view(&self) -> Seq<Seq<char>> {
        self.config@
    }
}

/// A message to send: a sender, the recipients, a subject, and the body
/// in two alternative forms.
#[derive(Clone, Debug, PartialEq, Eq)]
pub struct Message {
    pub from_address: String,
    pub from_name: String,
    pub recipients: Vec<String>,
    pub subject: String,
    pub html_body: String,
    pub plaintext_body: String,
}

/// The mathematical content of a [`Message`].
pub struct MessageView {
    pub from_address: Seq<char>,
    pub from_name: Seq<char>,
    pub recipients: Seq<Seq<char>>,
    pub subject: Seq<char>,
    pub html_body: Seq<char>,
    pub plaintext_body: Seq<char>,
}

impl View for Message {
    type V = MessageView;

    open spec fn view(&self) -> MessageView {
        MessageView {
            from_address: self.from_address@,
            from_name: self.from_name@,
            recipients: self.recipients.deep_view(),
            subject: self.subject@,
            html_body: self.html_body@,
            plaintext_body: self.plaintext_body@,
        }
    }
}

/// The message that tells `recipients` what `info` says: the summary is
/// the subject, the details are the body, as plain text and as markup.
pub open spec fn message_for(
    recipients: Seq<Seq<char>>,
    subject: Seq<char>,
    html_body: Seq<char>,
    plaintext_body: Seq<char>,
) -> MessageView {
    MessageView {
        from_address: DID_IT_RUN_EMAIL@,
        from_name: DID_IT_RUN_NAME@,
        recipients,
        subject,
        html_body,
        plaintext_body,
    }
}

impl Mailer {
    /// Starts setting up a mailer for the recipients of `config`, to log
    /// in with `credentials`. Settings without email have no mailer.
    pub fn new(config: Config, credentials: SmtpCredentials) -> (setup: Result<
        MailerSetup,
        MailerError,
    >)
        ensures
            match config.email {
                Some(email) => setup matches Ok(started) && started@ == (MailerSetupView {
                    recipients: email@,
                    credentials: credentials@,
                    validate: config.validate,
                    timeout: config.timeout,
                    stage: Stage::Resolve,
                }),
                None => setup == Err::<MailerSetup, MailerError>(MailerError::NoEmailConfig),
            },
    {
        match config.email {
            Some(email) => Ok(
                MailerSetup {
                    config: email,
                    credentials,
                    validate: config.validate,
                    timeout: config.timeout,
                    stage: Stage::Resolve,
                },
            ),
            None => Err(MailerError::NoEmailConfig),
        }
    }

    /// The message that carries `info` to the recipients.
    pub fn dispatch_notification(&self, info: NotificationInfo) -> (message: Message)
        ensures
            message@ == message_for(self@, info.brief@, info.html_details@, info.details@),
    {
        Message {
            from_address: String::from_str(DID_IT_RUN_EMAIL),
            from_name: String::from_str(DID_IT_RUN_NAME),
            recipients: clone_texts(&self.config.recipients),
            subject: info.brief,
            html_body: info.html_details,
            plaintext_body: info.details,
        }
    }
}

impl MailerSetup {
    /// The step that is due next.
    pub fn stage(&self) -> (stage: Stage)
        ensures
            stage == self@.stage,
    {
        self.stage
    }

    /// The command that the step due next sends, if it sends one.
    pub fn command(&self) -> (command: Option<SmtpCommand>)
        ensures
            command == command_of(self@.stage),
    {
        match self.stage {
            Stage::Greet => Some(SmtpCommand::Ehlo),
            Stage::StartTls => Some(SmtpCommand::StartTls),
            Stage::Regreet => Some(SmtpCommand::Ehlo),
            Stage::Authenticate => Some(SmtpCommand::Auth),
            Stage::Quit => Some(SmtpCommand::Quit),
            _ => None,
        }
    }

    /// The host name of the server.
    pub fn hostname(&self) -> (hostname: String)
        ensures
            hostname@ == self@.credentials.hostname,
    {
        self.credentials.hostname.clone()
    }

    /// The port of the server: that of the credentials, or the usual one
    /// for STARTTLS where they name none.
    pub fn port(&self) -> (port: Port)
        ensures
            port == port_of(self@.credentials),
    {
        match self.credentials.port {
            Some(port) => port,
            None => STARTTLS_PORT,
        }
    }

    /// The user name to log in with.
    pub fn username(&self) -> (username: String)
        ensures
            username@ == self@.credentials.username,
    {
        self.credentials.username.clone()
    }

    /// The password to log in with.
    pub fn password(&self) -> (password: String)
        ensures
            password@ == self@.credentials.password,
    {
        self.credentials.password.clone()
    }

    /// How long connecting may take, if that is limited.
    pub fn timeout(&self) -> (timeout: Option<Duration>)
        ensures
            timeout == self@.timeout,
    {
        self.timeout
    }

    /// Takes note of how the step that was due went.
    pub fn advance(self, outcome: Result<(), MailerFailure>) -> (result: Result<
        MailerSetup,
        MailerError,
    >)
        ensures
            match advanced(self@, outcome) {
                Ok(next) => result matches Ok(setup) && setup@ == next,
                Err(error) => result == Err::<MailerSetup, MailerError>(error),
            },
    {
        match outcome {
            Ok(_) => {
                let stage = match self.stage {
                    Stage::Resolve => Stage::TlsContext,
                    Stage::TlsContext => if self.validate {
                        Stage::Connect
                    } else {
                        Stage::Transport
                    },
                    Stage::Connect => Stage::Greet,
                    Stage::Greet => Stage::StartTls,
                    Stage::StartTls => Stage::UpgradeTls,
                    Stage::UpgradeTls => Stage::Regreet,
                    Stage::Regreet => Stage::Authenticate,
                    Stage::Authenticate => Stage::Quit,
                    Stage::Quit => Stage::Transport,
                    Stage::Transport => Stage::Ready,
                    Stage::Ready => Stage::Ready,
                };
                Ok(
                    MailerSetup {
                        config: self.config,
                        credentials: self.credentials,
                        validate: self.validate,
                        timeout: self.timeout,
                        stage,
                    },
                )
            },
            Err(failure) => Err(MailerError::from_setup(failure)),
        }
    }

    /// The mailer, once every step is done; the setup itself before that.
    pub fn finish(self) -> (result: Result<Mailer, MailerSetup>)
        ensures
            match result {
                Ok(mailer) => self@.stage == Stage::Ready && mailer@ == self@.recipients,
                Err(setup) => self@.stage != Stage::Ready && setup == self,
            },
    {
        match self.stage {
            Stage::Ready => Ok(Mailer { config: self.config }),
            _ => Err(self),
        }
    }
}

} // verus!
