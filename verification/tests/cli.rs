use did_it_run::cli::{read_timeout, timeout_verdict, validate_timeout, Arguments, CliOptions};
use std::path::PathBuf;

fn arguments(command: &str, args: Vec<&str>) -> Arguments {
    Arguments {
        command: command.to_string(),
        arguments: args.into_iter().map(String::from).collect(),
        email: None,
        no_email: false,
        no_validate: false,
        timeout: None,
        config_file: None,
        credentials_file: None,
    }
}

#[test]
fn parses_config_file_argument() {
    let file = "path/to/file";
    let result = CliOptions::from_arguments(Arguments {
        config_file: Some(PathBuf::from(file)),
        ..arguments("command", vec![])
    });
    assert!(result.is_ok());
    assert_eq!(result.unwrap().config_file, Some(PathBuf::from(file)));
}

#[test]
fn parses_credentials_file_argument() {
    let file = "path/to/file";
    let result = CliOptions::from_arguments(Arguments {
        credentials_file: Some(PathBuf::from(file)),
        ..arguments("command", vec![])
    });
    assert!(result.is_ok());
    assert_eq!(result.unwrap().credentials_file, Some(PathBuf::from(file)));
}

#[test]
fn removes_validation_with_no_validate_flag() {
    let result = CliOptions::from_arguments(arguments("command", vec![]));
    assert!(result.is_ok());
    assert!(result.unwrap().cli_config.validate.unwrap());
    let result = CliOptions::from_arguments(Arguments {
        no_validate: true,
        ..arguments("command", vec![])
    });
    assert!(result.is_ok());
    assert!(!result.unwrap().cli_config.validate.unwrap());
}

#[test]
fn configures_timeout_with_timeout_option() {
    let timeout = 60;
    let result = CliOptions::from_arguments(Arguments {
        timeout: Some(timeout.to_string()),
        ..arguments("command", vec![])
    });
    assert!(result.is_ok());
    assert_eq!(result.unwrap().cli_config.timeout, Some(timeout));
}

#[test]
fn omits_timeout_withut_timeout_option() {
    let result = CliOptions::from_arguments(arguments("command", vec![]));
    assert!(result.is_ok());
    assert_eq!(result.unwrap().cli_config.timeout, None);
}

#[test]
fn returns_error_with_bad_timeout_argument() {
    let invalid_timeout_values = ["ten", "3.14"];
    for timeout in &invalid_timeout_values {
        let result = CliOptions::from_arguments(Arguments {
            timeout: Some(timeout.to_string()),
            ..arguments("command", vec![])
        });
        assert!(result.is_err());
        assert!(validate_timeout(timeout.to_string()).is_err());
    }
}

#[test]
fn specifying_no_email_flag_adds_config() {
    let result = CliOptions::from_arguments(Arguments {
        no_email: true,
        ..arguments("command", vec![])
    });
    assert!(result.unwrap().merge_options.no_email);
}

#[test]
fn not_no_email_flag_does_not_add_config() {
    let result = CliOptions::from_arguments(arguments("command", vec![]));
    assert!(!result.unwrap().merge_options.no_email);
}

#[test]
fn cli_parses_command_with_no_arguments() {
    let result = CliOptions::from_arguments(arguments("command", vec![]));
    assert!(result.is_ok());
    let incantation = result.unwrap().incantation;
    assert_eq!(incantation.command, "command");
    assert!(incantation.args.is_empty());
}

#[test]
fn cli_parses_command_with_one_argument() {
    let result = CliOptions::from_arguments(arguments("command", vec!["foo"]));
    assert!(result.is_ok());
    let incantation = result.unwrap().incantation;
    assert_eq!(incantation.command, "command");
    assert_eq!(incantation.args, ["foo"]);
}

#[test]
fn cli_parses_command_with_many_arguments() {
    let result = CliOptions::from_arguments(arguments("command", vec!["foo", "bar", "baz"]));
    assert!(result.is_ok());
    let incantation = result.unwrap().incantation;
    assert_eq!(incantation.command, "command");
    assert_eq!(incantation.args, ["foo", "bar", "baz"]);
}

#[test]
fn cli_parses_command_with_flag() {
    let result = CliOptions::from_arguments(arguments("command", vec!["arg", "--flag"]));
    assert!(result.is_ok());
    let incantation = result.unwrap().incantation;
    assert_eq!(incantation.command, "command");
    assert_eq!(incantation.args, ["arg", "--flag"]);
}

#[test]
fn parses_command_with_email() {
    let result = CliOptions::from_arguments(Arguments {
        email: Some(vec!["someone@example.com".to_string()]),
        ..arguments("command", vec!["foo", "bar"])
    });
    assert!(result.is_ok());
    let options = result.unwrap();
    assert_eq!(options.incantation.command, "command");
    assert_eq!(options.incantation.args, ["foo", "bar"]);
    assert_eq!(
        options.cli_config.email.unwrap().recipients,
        ["someone@example.com"]
    );
}

#[test]
fn parses_command_with_multiple_emails() {
    let result = CliOptions::from_arguments(Arguments {
        email: Some(vec![
            "someone@example.com".to_string(),
            "someone_else@example.com".to_string(),
        ]),
        ..arguments("command", vec!["foo"])
    });
    assert!(result.is_ok());
    let options = result.unwrap();
    assert_eq!(options.incantation.command, "command");
    assert_eq!(options.incantation.args, ["foo"]);
    assert_eq!(
        options.cli_config.email.unwrap().recipients,
        ["someone@example.com", "someone_else@example.com"]
    );
}

#[test]
fn parses_command_with_email_and_argument_flags() {
    let result = CliOptions::from_arguments(Arguments {
        email: Some(vec!["someone@example.com".to_string()]),
        ..arguments("command", vec!["arg", "--flag"])
    });
    assert!(result.is_ok());
    let options = result.unwrap();
    assert_eq!(options.incantation.command, "command");
    assert_eq!(options.incantation.args, ["arg", "--flag"]);
    assert_eq!(
        options.cli_config.email.unwrap().recipients,
        ["someone@example.com"]
    );
}

#[test]
fn cli_maximize_coverage_report() {
    let options = CliOptions::from_arguments(arguments("command", vec!["arg"])).unwrap();
    let _ = format!("{:?}", options);
}

#[test]
fn command_line_is_silent_on_version_and_desktop() {
    let options = CliOptions::from_arguments(Arguments {
        email: Some(vec![]),
        timeout: Some("0".to_string()),
        ..arguments("command", vec![])
    })
    .unwrap();
    assert_eq!(options.cli_config.version, None);
    assert_eq!(options.cli_config.desktop_notifications, None);
    assert_eq!(options.cli_config.validate, Some(true));
    assert_eq!(options.cli_config.timeout, Some(0));
    assert!(options.cli_config.email.unwrap().recipients.is_empty());
    assert_eq!(options.config_file, None);
    assert_eq!(options.credentials_file, None);
}

#[test]
fn timeouts_are_read_as_whole_seconds() {
    assert_eq!(read_timeout("60"), Ok(60));
    assert_eq!(read_timeout("+7"), Ok(7));
    assert_eq!(read_timeout("18446744073709551615"), Ok(u64::MAX));
    assert_eq!(validate_timeout("60".to_string()), Ok(()));
    assert_eq!(
        read_timeout("ten"),
        Err("Cannot parse integer timeout value \"ten\": invalid digit found in string".to_string())
    );
    assert_eq!(
        validate_timeout("3.14".to_string()),
        Err(
            "Cannot parse integer timeout value \"3.14\": invalid digit found in string"
                .to_string()
        )
    );
    assert_eq!(
        validate_timeout("".to_string()),
        Err(
            "Cannot parse integer timeout value \"\": cannot parse integer from empty string"
                .to_string()
        )
    );
    assert_eq!(
        validate_timeout("18446744073709551616".to_string()),
        Err(format!(
            "Cannot parse integer timeout value \"{}\": {}",
            "18446744073709551616", "number too large to fit in target type"
        ))
    );
    assert!(validate_timeout("-1".to_string()).is_err());
    assert!(validate_timeout(" 1".to_string()).is_err());
}

#[test]
fn timeout_verdict_follows_the_parser() {
    assert_eq!(timeout_verdict("whatever", Ok(5)), Ok(5));
    assert_eq!(
        timeout_verdict("x", Err("no".to_string())),
        Err("Cannot parse integer timeout value \"x\": no".to_string())
    );
}
