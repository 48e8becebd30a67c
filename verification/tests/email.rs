use did_it_run::config::Config;
use did_it_run::notifications::email::{
    EmailConfig, EmailFailure, Mailer, MailerError, MailerFailure, MailerSetup, Mechanism,
    SendFailure, SmtpCommand, SmtpCredentials, SmtpFailure, Stage, TlsProtocol,
    AUTHENTICATION_MECHANISM, MINIMUM_TLS_VERSION, SMTP_UTF8, STARTTLS_PORT,
};
use did_it_run::notifications::notification_info::NotificationInfo;
use did_it_run::notifications::{
    Dispatch, DispatchOutcome, Notifier, NotifierError, SetupOutcome,
};
use did_it_run::{DID_IT_RUN_EMAIL, DID_IT_RUN_NAME};
use std::time::Duration;

const HOSTNAME: &str = "localhost";
const USERNAME: &str = "username";
const PASSWORD: &str = "password";

fn notification_info() -> NotificationInfo {
    NotificationInfo {
        brief: "Notification summary".to_string(),
        details: "Notification details".to_string(),
        html_details: "<p>Notification details</p>".to_string(),
    }
}

fn new_valid() -> SmtpCredentials {
    SmtpCredentials::new(HOSTNAME, 9000, USERNAME, PASSWORD)
}

fn new_invalid() -> SmtpCredentials {
    SmtpCredentials::new(HOSTNAME, 9001, "bad_username", "bad_password")
}

/// A mail server that knows one user: it takes every step but a login
/// with other credentials.
fn serve(setup: &MailerSetup) -> Result<(), MailerFailure> {
    if setup.command() == Some(SmtpCommand::Auth)
        && (setup.username() != USERNAME || setup.password() != PASSWORD)
    {
        Err(MailerFailure::Smtp(SmtpFailure::Permanent(
            "5.7.8 Authentication credentials invalid".to_string(),
        )))
    } else {
        Ok(())
    }
}

/// Sets the mailer up against the server, and says which steps were
/// performed.
fn set_up(
    config: Config,
    credentials: SmtpCredentials,
) -> (Vec<Stage>, Result<Mailer, MailerError>) {
    let mut performed = vec![];
    let mut setup = match Mailer::new(config, credentials) {
        Ok(setup) => setup,
        Err(error) => return (performed, Err(error)),
    };
    loop {
        setup = match setup.finish() {
            Ok(mailer) => return (performed, Ok(mailer)),
            Err(setup) => setup,
        };
        performed.push(setup.stage());
        let outcome = serve(&setup);
        setup = match setup.advance(outcome) {
            Ok(setup) => setup,
            Err(error) => return (performed, Err(error)),
        };
    }
}

fn handshake() -> Vec<Stage> {
    vec![
        Stage::Resolve,
        Stage::TlsContext,
        Stage::Connect,
        Stage::Greet,
        Stage::StartTls,
        Stage::UpgradeTls,
        Stage::Regreet,
        Stage::Authenticate,
        Stage::Quit,
        Stage::Transport,
    ]
}

#[test]
fn sends_mail_on_success() {
    let config = Config {
        email: Some(EmailConfig::new(vec![
            "recipient1@localhost",
            "recipient2@localhost",
            "recipient3@localhost",
        ])),
        ..Default::default()
    };
    let credentials = new_valid();

    let (performed, mailer) = set_up(config.clone(), credentials);
    assert_eq!(performed, handshake());
    let mailer = mailer.unwrap();

    let message = mailer.dispatch_notification(notification_info());
    assert_eq!(message.subject, notification_info().brief);
    for recipient in config.email.unwrap().recipients {
        assert!(message.recipients.contains(&recipient));
    }
    assert_eq!(message.recipients.len(), 3);
    let from = format!("\"{}\" <{}>", message.from_name, message.from_address);
    let expected_from = format!("\"{}\" <{}>", DID_IT_RUN_NAME, DID_IT_RUN_EMAIL);
    assert_eq!(from, expected_from);
    assert_eq!(message.plaintext_body.trim(), notification_info().details);
    assert_eq!(message.html_body.trim(), notification_info().html_details);
}

#[test]
fn creates_mailer_with_bad_credentials_and_no_validation() {
    let config = Config {
        email: Some(EmailConfig::new(vec!["someone@localhost"])),
        validate: false,
        ..Default::default()
    };
    let credentials = new_invalid();
    let (performed, mailer) = set_up(config.clone(), credentials);
    assert!(mailer.is_ok());
    // Neither a login nor any other command was sent.
    assert_eq!(
        performed,
        vec![Stage::Resolve, Stage::TlsContext, Stage::Transport]
    );
}

#[test]
fn fails_to_create_mailer_with_bad_credentials() {
    let config = Config {
        email: Some(EmailConfig::new(vec!["someone@localhost"])),
        ..Default::default()
    };
    let credentials = new_invalid();
    let (performed, mailer) = set_up(config.clone(), credentials);
    assert!(mailer.is_err());
    assert!(matches!(mailer.unwrap_err(), MailerError::SmtpError(_)));
    // The login was the last step: no leave was taken, no transport built.
    assert_eq!(performed.last(), Some(&Stage::Authenticate));
    assert_eq!(performed, handshake()[..8].to_vec());
}

#[test]
fn fails_to_send_mail_with_bad_credentials() {
    let config = Config {
        desktop_notifications: false,
        email: Some(EmailConfig::new(vec!["someone@localhost"])),
        validate: false,
        ..Default::default()
    };
    let credentials = did_it_run::config::Credentials {
        version: did_it_run::config::latest_credentials_version(),
        smtp: Some(new_invalid()),
    };
    let mut setup = Notifier::new(config, credentials).unwrap();
    let notifier = loop {
        setup = match setup.finish() {
            Ok(notifier) => break notifier,
            Err(setup) => setup.advance(SetupOutcome::Done).unwrap(),
        };
    };
    assert_eq!(notifier.len(), 1);
    let delivery = notifier.deliver(notification_info());
    match delivery.dispatch(&notifier) {
        Some(Dispatch::Email(message)) => {
            assert_eq!(message.recipients, vec!["someone@localhost"])
        },
        other => panic!("{:?}", other),
    }
    let result = delivery.advance(DispatchOutcome::Email(SendFailure::Rejected(
        SmtpFailure::Permanent("5.7.8 Authentication credentials invalid".to_string()),
    )));
    assert!(result.is_err());
    assert!(matches!(
        result.unwrap_err(),
        NotifierError::Email(MailerError::SmtpError(_))
    ));
}

#[test]
fn email_error_conversion() {
    let message = "oh no!";

    let mailer_error = MailerError::from_setup(MailerFailure::Io(message.to_string()));
    assert!(matches!(mailer_error, MailerError::Io(_)));

    let lettre_email_err = EmailFailure::Io(message.to_string());
    let mailer_error = MailerError::from(lettre_email_err);
    assert!(matches!(mailer_error, MailerError::Io(_)));

    let lettre_email_err =
        EmailFailure::CannotParseFilename("Could not parse attachment filename".to_string());
    let mailer_error = MailerError::from(lettre_email_err);
    assert!(matches!(mailer_error, MailerError::LettreEmail(_)));

    let lettre_smtp_err = SmtpFailure::Io(message.to_string());
    let mailer_error = MailerError::from(lettre_smtp_err);
    assert!(matches!(mailer_error, MailerError::Io(_)));

    let lettre_smtp_err = SmtpFailure::Tls("bad certificate".to_string());
    let mailer_error = MailerError::from(lettre_smtp_err);
    assert!(matches!(mailer_error, MailerError::Tls(_)));

    let lettre_smtp_err = SmtpFailure::Client(message.to_string());
    let mailer_error = MailerError::from(lettre_smtp_err);
    assert!(matches!(mailer_error, MailerError::SmtpError(_)));

    let mailer_error = MailerError::from_setup(MailerFailure::Tls("bad certificate".to_string()));
    assert!(matches!(mailer_error, MailerError::Tls(_)));
}

#[test]
fn every_other_smtp_failure_is_a_protocol_error() {
    let text = || "text".to_string();
    let failures = vec![
        SmtpFailure::Transient(text()),
        SmtpFailure::Permanent(text()),
        SmtpFailure::ResponseParsing(text()),
        SmtpFailure::ChallengeParsing(text()),
        SmtpFailure::Utf8Parsing(text()),
        SmtpFailure::Client(text()),
        SmtpFailure::Resolution(text()),
        SmtpFailure::Parsing(text()),
    ];
    for failure in failures {
        assert!(matches!(
            MailerError::from_setup(MailerFailure::Smtp(failure)),
            MailerError::SmtpError(_)
        ));
    }
    match MailerError::from_setup(MailerFailure::NoAddress(text())) {
        MailerError::SmtpError(SmtpFailure::Resolution(message)) => assert_eq!(message, "text"),
        other => panic!("{:?}", other),
    }
    assert!(matches!(
        MailerError::from_setup(MailerFailure::Smtp(SmtpFailure::Io(text()))),
        MailerError::Io(_)
    ));
    assert!(matches!(
        MailerError::from_setup(MailerFailure::Smtp(SmtpFailure::Tls(text()))),
        MailerError::Tls(_)
    ));
}

#[test]
fn send_failures_keep_their_kind() {
    assert!(matches!(
        MailerError::from_send(SendFailure::Rejected(SmtpFailure::Io("reset".to_string()))),
        MailerError::SmtpError(SmtpFailure::Io(_))
    ));
    assert!(matches!(
        MailerError::from_send(SendFailure::Rejected(SmtpFailure::Tls("alert".to_string()))),
        MailerError::SmtpError(SmtpFailure::Tls(_))
    ));
    assert!(matches!(
        MailerError::from_send(SendFailure::Malformed(EmailFailure::Io("disk".to_string()))),
        MailerError::LettreEmail(EmailFailure::Io(_))
    ));
    assert!(matches!(
        MailerError::from_send(SendFailure::Malformed(EmailFailure::Envelope(
            "missing destination address".to_string()
        ))),
        MailerError::LettreEmail(EmailFailure::Envelope(_))
    ));
}

#[test]
fn mailer_needs_email_settings() {
    let config = Config::default();
    let result = Mailer::new(config, new_valid());
    assert!(matches!(result.unwrap_err(), MailerError::NoEmailConfig));
}

#[test]
fn setup_knows_whom_to_ask_and_how() {
    let config = Config {
        email: Some(EmailConfig::new(vec!["someone@localhost"])),
        timeout: Some(Duration::from_secs(30)),
        ..Default::default()
    };
    let setup = Mailer::new(config, new_valid()).unwrap();
    assert_eq!(setup.stage(), Stage::Resolve);
    assert_eq!(setup.command(), None);
    assert_eq!(setup.hostname(), HOSTNAME);
    assert_eq!(setup.port(), 9000);
    assert_eq!(setup.username(), USERNAME);
    assert_eq!(setup.password(), PASSWORD);
    assert_eq!(setup.timeout(), Some(Duration::from_secs(30)));

    let config = Config {
        email: Some(EmailConfig::new(vec!["someone@localhost"])),
        ..Default::default()
    };
    let credentials = SmtpCredentials::from_parts(
        "mail.example.com".to_string(),
        None,
        "user".to_string(),
        "secret".to_string(),
    );
    let setup = Mailer::new(config, credentials).unwrap();
    assert_eq!(setup.port(), 587);
    assert_eq!(STARTTLS_PORT, 587);
    assert_eq!(setup.timeout(), None);
    assert_eq!(AUTHENTICATION_MECHANISM, Mechanism::Plain);
    assert_eq!(MINIMUM_TLS_VERSION, TlsProtocol::Tlsv12);
    assert!(SMTP_UTF8);
}

#[test]
fn handshake_sends_its_commands_in_order() {
    let config = Config {
        email: Some(EmailConfig::new(vec!["someone@localhost"])),
        ..Default::default()
    };
    let mut setup = Mailer::new(config, new_valid()).unwrap();
    let mut commands = vec![];
    loop {
        setup = match setup.finish() {
            Ok(_) => break,
            Err(setup) => setup,
        };
        if let Some(command) = setup.command() {
            commands.push(command);
        }
        setup = setup.advance(Ok(())).unwrap();
    }
    assert_eq!(
        commands,
        vec![
            SmtpCommand::Ehlo,
            SmtpCommand::StartTls,
            SmtpCommand::Ehlo,
            SmtpCommand::Auth,
            SmtpCommand::Quit,
        ]
    );
}

#[test]
fn each_failed_step_ends_the_setup_with_its_error() {
    let config = || Config {
        email: Some(EmailConfig::new(vec!["someone@localhost"])),
        ..Default::default()
    };
    let setup = Mailer::new(config(), new_valid()).unwrap();
    match setup
        .advance(Err(MailerFailure::NoAddress(
            "could not resolve hostname".to_string(),
        )))
        .unwrap_err()
    {
        MailerError::SmtpError(SmtpFailure::Resolution(message)) => {
            assert_eq!(message, "could not resolve hostname")
        },
        other => panic!("{:?}", other),
    }
    let setup = Mailer::new(config(), new_valid()).unwrap();
    match setup
        .advance(Err(MailerFailure::Io("failed to lookup address".to_string())))
        .unwrap_err()
    {
        MailerError::Io(message) => assert_eq!(message, "failed to lookup address"),
        other => panic!("{:?}", other),
    }
    let setup = Mailer::new(config(), new_valid()).unwrap();
    let setup = setup.advance(Ok(())).unwrap();
    assert_eq!(setup.stage(), Stage::TlsContext);
    match setup
        .advance(Err(MailerFailure::Tls("no trust store".to_string())))
        .unwrap_err()
    {
        MailerError::Tls(message) => assert_eq!(message, "no trust store"),
        other => panic!("{:?}", other),
    }
}

#[test]
fn mailer_errors_are_written_out() {
    assert_eq!(
        MailerError::Io("connection refused".to_string()).to_string(),
        "IO error: connection refused"
    );
    assert_eq!(
        MailerError::MissingCredentials.to_string(),
        "No smtp credentials provided."
    );
    assert_eq!(
        MailerError::NoEmailConfig.to_string(),
        "No email config provided."
    );
    assert_eq!(
        MailerError::SmtpError(SmtpFailure::Resolution("no such host".to_string())).to_string(),
        "no such host"
    );
    assert_eq!(
        MailerError::SmtpError(SmtpFailure::Permanent("5.7.8 rejected".to_string())).to_string(),
        "5.7.8 rejected"
    );
    assert_eq!(
        MailerError::LettreEmail(EmailFailure::CannotParseFilename("bad name".to_string()))
            .to_string(),
        "bad name"
    );
    assert_eq!(
        MailerError::LettreEmail(EmailFailure::Envelope("missing sender".to_string()))
            .to_string(),
        "missing sender"
    );
    assert_eq!(
        MailerError::Tls("handshake failure".to_string()).to_string(),
        "handshake failure"
    );
}
