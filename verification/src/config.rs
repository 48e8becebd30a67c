//! The settings of a run: what the user asked for on the command line and in
//! the configuration file, merged and resolved against the defaults.

use crate::decimal::decimal;
use crate::duration_format::{duration_seconds, duration_subsec_nanos};
use crate::notifications::email::{EmailConfig, SmtpCredentials, SmtpCredentialsView};
use crate::version::{
    lemma_release_text, numbers_lower, parsed_version, release, version_lower, version_text,
    Version, VersionView,
};
use std::time::Duration;
use vstd::prelude::*;
use vstd::std_specs::convert::FromSpecImpl;
use vstd::string::StringExecFns;

verus! {

pub type TimeoutInput = u64;

/// The newest version of the configuration schema that is understood.
pub fn latest_config_version() -> (version: Version)
    ensures
        version@ == latest_config(),
{
    Version::new(0, 0, 1)
}

/// The newest version of the credentials schema that is understood.
pub fn latest_credentials_version() -> (version: Version)
    ensures
        version@ == latest_credentials(),
{
    Version::new(0, 0, 1)
}

/// The newest configuration schema, `0.0.1`.
pub open spec fn latest_config() -> VersionView {
    release(0, 0, 1)
}

/// The newest credentials schema, `0.0.1`.
pub open spec fn latest_credentials() -> VersionView {
    release(0, 0, 1)
}

/// Settings as the user gave them: each one may be absent.
#[derive(Clone, Debug, PartialEq)]
pub struct UserConfig {
    pub version: Option<String>,
    pub desktop_notifications: Option<bool>,
    pub email: Option<EmailConfig>,
    pub validate: Option<bool>,
    pub timeout: Option<TimeoutInput>,
}

/// The mathematical content of a [`UserConfig`].
pub struct UserConfigView {
    pub version: Option<Seq<char>>,
    pub desktop_notifications: Option<bool>,
    pub email: Option<Seq<Seq<char>>>,
    pub validate: Option<bool>,
    pub timeout: Option<TimeoutInput>,
}

impl View for UserConfig {
    type V = UserConfigView;

    open spec fn view(&self) -> UserConfigView {
        UserConfigView {
            version: match self.version {
                Some(text) => Some(text@),
                None => None,
            },
            desktop_notifications: self.desktop_notifications,
            email: match self.email {
                Some(email) => Some(email@),
                None => None,
            },
            validate: self.validate,
            timeout: self.timeout,
        }
    }
}

/// The settings of a user who gave none.
pub open spec fn empty_user_config() -> UserConfigView {
    UserConfigView {
        version: None,
        desktop_notifications: None,
        email: None,
        validate: None,
        timeout: None,
    }
}

impl Default for UserConfig {
    fn default() -> (config: UserConfig)
        ensures
            config@ == empty_user_config(),
    {
        UserConfig {
            version: None,
            desktop_notifications: None,
            email: None,
            validate: None,
            timeout: None,
        }
    }
}

/// A length of time as a `Duration` holds it.
pub struct DurationView {
    pub seconds: nat,
    pub subsec_nanos: nat,
}

/// The settings of a run, every one decided.
#[derive(Clone, Debug, PartialEq)]
pub struct Config {
    pub version: Version,
    pub desktop_notifications: bool,
    pub email: Option<EmailConfig>,
    pub validate: bool,
    pub timeout: Option<Duration>,
}

/// The mathematical content of a [`Config`].
pub struct ConfigView {
    pub version: VersionView,
    pub desktop_notifications: bool,
    pub email: Option<Seq<Seq<char>>>,
    pub validate: bool,
    pub timeout: Option<DurationView>,
}

impl View for Config {
    type V = ConfigView;

    open spec fn view(&self) -> ConfigView {
        ConfigView {
            version: self.version@,
            desktop_notifications: self.desktop_notifications,
            email: match self.email {
                Some(email) => Some(email@),
                None => None,
            },
            validate: self.validate,
            timeout: match self.timeout {
                Some(duration) => Some(
                    DurationView {
                        seconds: duration_seconds(duration),
                        subsec_nanos: duration_subsec_nanos(duration),
                    },
                ),
                None => None,
            },
        }
    }
}

/// Whether settings are as resolution leaves them: the schema version is
/// not above the newest one that is understood, and email settings name at
/// least one recipient.
pub open spec fn config_well_formed(config: ConfigView) -> bool {
    &&& !version_lower(latest_config(), config.version)
    &&& config.email matches Some(recipients) ==> recipients.len() > 0
}

/// What changes how two sources of settings are merged.
#[derive(Clone, Copy, Debug)]
pub struct MergeOptions {
    /// No email is sent, whatever either source says.
    pub no_email: bool,
}

impl Default for MergeOptions {
    fn default() -> (options: MergeOptions)
        ensures
            !options.no_email,
    {
        MergeOptions { no_email: false }
    }
}

/// Credentials as the user gave them.
#[derive(Debug, PartialEq)]
pub struct UserCredentials {
    pub version: Option<String>,
    pub smtp: Option<SmtpCredentials>,
}

/// The mathematical content of [`UserCredentials`].
pub struct UserCredentialsView {
    pub version: Option<Seq<char>>,
    pub smtp: Option<SmtpCredentialsView>,
}

impl View for UserCredentials {
    type V = UserCredentialsView;

    open spec fn view(&self) -> UserCredentialsView {
        UserCredentialsView {
            version: match self.version {
                Some(text) => Some(text@),
                None => None,
            },
            smtp: match self.smtp {
                Some(smtp) => Some(smtp@),
                None => None,
            },
        }
    }
}

impl Default for UserCredentials {
    fn default() -> (credentials: UserCredentials)
        ensures
            credentials@ == (UserCredentialsView { version: None, smtp: None }),
    {
        UserCredentials { version: None, smtp: None }
    }
}

/// Credentials with their schema version decided.
#[derive(Clone, Debug, PartialEq)]
pub struct Credentials {
    pub version: Version,
    pub smtp: Option<SmtpCredentials>,
}

/// The mathematical content of [`Credentials`].
pub struct CredentialsView {
    pub version: VersionView,
    pub smtp: Option<SmtpCredentialsView>,
}

impl View for Credentials {
    type V = CredentialsView;

    open spec fn view(&self) -> CredentialsView {
        CredentialsView {
            version: self.version@,
            smtp: match self.smtp {
                Some(smtp) => Some(smtp@),
                None => None,
            },
        }
    }
}

/// Whether credentials are as resolution leaves them: the schema version
/// is not above the newest one that is understood.
pub open spec fn credentials_well_formed(credentials: CredentialsView) -> bool {
    !version_lower(latest_credentials(), credentials.version)
}

/// Why settings or credentials were rejected.
#[derive(Debug)]
pub enum ConfigError {
    /// The version is no semantic version; the message says why.
    MalformedVersion(String),
    /// The version is newer than the newest schema that is understood.
    InvalidVersion(Version),
}

/// The mathematical content of a [`ConfigError`].
pub enum ConfigErrorView {
    MalformedVersion(Seq<char>),
    InvalidVersion(VersionView),
}

impl View for ConfigError {
    type V = ConfigErrorView;

    open spec fn view(&self) -> ConfigErrorView {
        match *self {
            ConfigError::MalformedVersion(message) => ConfigErrorView::MalformedVersion(message@),
            ConfigError::InvalidVersion(version) => ConfigErrorView::InvalidVersion(version@),
        }
    }
}

/// The first of `candidates` that exists, where `exists` says of each in
/// turn whether it does.
pub open spec fn first_existing<P>(candidates: Seq<P>, exists: Seq<bool>) -> Option<P>
    decreases candidates.len(),
{
    if candidates.len() == 0 || exists.len() == 0 {
        None
    } else if exists[0] {
        Some(candidates[0])
    } else {
        first_existing(candidates.drop_first(), exists.drop_first())
    }
}

/// The file to load settings from: the one that was named, else the first
/// of the usual places at which a file exists. `exists` says of each usual
/// place in turn whether a file is there. Where no file is chosen the
/// settings are the empty ones.
pub fn select_file<P>(file: Option<P>, default: Vec<P>, exists: &Vec<bool>) -> (selected: Option<P>)
    ensures
        selected == match file {
            Some(named) => Some(named),
            None => first_existing(default@, exists@),
        },
{
    if file.is_some() {
        return file;
    }
    let mut places = default;
    let mut i: usize = 0;
    assert(default@.skip(0) =~= default@ && exists@.skip(0) =~= exists@);
    while i < places.len() && i < exists.len()
        invariant
            file is None,
            places@ == default@,
            i <= places.len(),
            i <= exists.len(),
            first_existing(default@, exists@) == first_existing(
                default@.skip(i as int),
                exists@.skip(i as int),
            ),
        decreases places.len() - i,
    {
        if exists[i] {
            assert(exists@.skip(i as int)[0] == exists@[i as int]);
            assert(default@.skip(i as int)[0] == default@[i as int]);
            return Some(places.swap_remove(i));
        }
        assert(default@.skip(i as int).drop_first() =~= default@.skip(i + 1));
        assert(exists@.skip(i as int).drop_first() =~= exists@.skip(i + 1));
        i += 1;
    }
    None
}

/// The first of two optional values that is present.
pub open spec fn first_present<T>(first: Option<T>, second: Option<T>) -> Option<T> {
    match first {
        Some(_) => first,
        None => second,
    }
}

/// The settings that result from those of the command line and those of
/// the file: field by field the command line wins, and `no_email` removes
/// the email settings of both.
pub open spec fn merged(
    cli: UserConfigView,
    file: UserConfigView,
    no_email: bool,
) -> UserConfigView {
    UserConfigView {
        version: first_present(cli.version, file.version),
        desktop_notifications: first_present(
            cli.desktop_notifications,
            file.desktop_notifications,
        ),
        email: if no_email {
            None
        } else {
            first_present(cli.email, file.email)
        },
        validate: first_present(cli.validate, file.validate),
        timeout: first_present(cli.timeout, file.timeout),
    }
}

/// Merges the settings of the command line with those of the file.
pub fn merge(cli_config: UserConfig, file_config: UserConfig, options: MergeOptions) -> (config:
    UserConfig)
    ensures
        config@ == merged(cli_config@, file_config@, options.no_email),
{
    let email = if options.no_email {
        None
    } else {
        match cli_config.email {
            Some(email) => Some(email),
            None => file_config.email,
        }
    };
    let desktop_notifications = match cli_config.desktop_notifications {
        Some(enabled) => Some(enabled),
        None => file_config.desktop_notifications,
    };
    UserConfig {
        version: match cli_config.version {
            Some(version) => Some(version),
            None => file_config.version,
        },
        desktop_notifications,
        email,
        validate: match cli_config.validate {
            Some(validate) => Some(validate),
            None => file_config.validate,
        },
        timeout: match cli_config.timeout {
            Some(timeout) => Some(timeout),
            None => file_config.timeout,
        },
    }
}

/// The schema version that a request resolves to.
///
/// No request means the newest version. A text that is no semantic version
/// is malformed; a version above the newest one is invalid; any other
/// version is taken as it is.
pub open spec fn resolved_version(requested: Option<Seq<char>>, latest: VersionView) -> Result<
    VersionView,
    ConfigErrorView,
> {
    match requested {
        None => Ok(latest),
        Some(text) => checked_version(Some(parsed_version(text)), latest),
    }
}

/// The schema version, given what parsing the requested version gave, if
/// one was requested.
pub open spec fn checked_version(
    parsed: Option<Result<VersionView, Seq<char>>>,
    latest: VersionView,
) -> Result<VersionView, ConfigErrorView> {
    match parsed {
        None => Ok(latest),
        Some(Err(message)) => Err(ConfigErrorView::MalformedVersion(message)),
        Some(Ok(version)) => if version_lower(latest, version) {
            Err(ConfigErrorView::InvalidVersion(version))
        } else {
            Ok(version)
        },
    }
}

/// The view of the outcome of parsing a version, if one was requested.
pub open spec fn parsed_view(parsed: Option<Result<Version, String>>) -> Option<
    Result<VersionView, Seq<char>>,
> {
    match parsed {
        None => None,
        Some(Ok(version)) => Some(Ok(version@)),
        Some(Err(message)) => Some(Err(message@)),
    }
}

/// The view of a version or the error that took its place.
pub open spec fn version_result_view(result: Result<Version, ConfigError>) -> Result<
    VersionView,
    ConfigErrorView,
> {
    match result {
        Ok(version) => Ok(version@),
        Err(error) => Err(error@),
    }
}

/// Decides the schema version from what parsing the requested version
/// gave, if one was requested, and from the newest version understood.
pub fn check_version(parsed: Option<Result<Version, String>>, latest: Version) -> (result: Result<
    Version,
    ConfigError,
>)
    ensures
        version_result_view(result) == checked_version(parsed_view(parsed), latest@),
{
    match parsed {
        None => Ok(latest),
        Some(Err(message)) => Err(ConfigError::MalformedVersion(message)),
        Some(Ok(version)) => if latest.precedes(&version) {
            Err(ConfigError::InvalidVersion(version))
        } else {
            Ok(version)
        },
    }
}

/// Decides the schema version from the requested one, if any.
pub fn resolve_version(requested: Option<String>, latest: Version) -> (result: Result<
    Version,
    ConfigError,
>)
    ensures
        version_result_view(result) == resolved_version(
            match requested {
                Some(text) => Some(text@),
                None => None,
            },
            latest@,
        ),
{
    let parsed = match requested {
        Some(text) => Some(Version::parse(text.as_str())),
        None => None,
    };
    check_version(parsed, latest)
}

/// The email settings that count: a list without recipients is as good as
/// no list.
pub open spec fn resolved_email(email: Option<Seq<Seq<char>>>) -> Option<Seq<Seq<char>>> {
    match email {
        Some(recipients) => if recipients.len() == 0 {
            None
        } else {
            Some(recipients)
        },
        None => None,
    }
}

/// The settings of a run with schema `version` for what the user gave:
/// desktop notifications and validation are on unless switched off, and the
/// timeout is a whole number of seconds.
pub open spec fn config_with_version(user: UserConfigView, version: VersionView) -> ConfigView {
    ConfigView {
        version,
        desktop_notifications: match user.desktop_notifications {
            Some(enabled) => enabled,
            None => true,
        },
        email: resolved_email(user.email),
        validate: match user.validate {
            Some(validate) => validate,
            None => true,
        },
        timeout: match user.timeout {
            Some(seconds) => Some(DurationView { seconds: seconds as nat, subsec_nanos: 0 }),
            None => None,
        },
    }
}

/// The settings of a run for what the user gave, or why there are none.
pub open spec fn resolved_config(user: UserConfigView) -> Result<ConfigView, ConfigErrorView> {
    match resolved_version(user.version, latest_config()) {
        Ok(version) => Ok(config_with_version(user, version)),
        Err(error) => Err(error),
    }
}

/// The view of settings or the error that took their place.
pub open spec fn config_result_view(result: Result<Config, ConfigError>) -> Result<
    ConfigView,
    ConfigErrorView,
> {
    match result {
        Ok(config) => Ok(config@),
        Err(error) => Err(error@),
    }
}

impl Config {
    /// Resolves what the user gave into the settings of a run.
    pub fn from_user_config(user_config: UserConfig) -> (result: Result<Config, ConfigError>)
        ensures
            config_result_view(result) == resolved_config(user_config@),
            result matches Ok(config) ==> config_well_formed(config@),
    {
        let UserConfig { version, desktop_notifications, email, validate, timeout } = user_config;
        let version = match resolve_version(version, latest_config_version()) {
            Ok(version) => version,
            Err(error) => {
                return Err(error);
            },
        };
        let email = match email {
            Some(email) => if email.recipients.len() == 0 {
                None
            } else {
                Some(email)
            },
            None => None,
        };
        let desktop_notifications = match desktop_notifications {
            Some(enabled) => enabled,
            None => true,
        };
        Ok(
            Config {
                version,
                desktop_notifications,
                email,
                validate: match validate {
                    Some(validate) => validate,
                    None => true,
                },
                timeout: match timeout {
                    Some(seconds) => Some(Duration::from_secs(seconds)),
                    None => None,
                },
            },
        )
    }
}

impl Default for Config {
    /// The settings of a user who gave none.
    fn default() -> (config: Config)
        ensures
            config@ == config_with_version(empty_user_config(), latest_config()),
            config_well_formed(config@),
    {
        Config {
            version: latest_config_version(),
            desktop_notifications: true,
            email: None,
            validate: true,
            timeout: None,
        }
    }
}

/// The credentials for what the user gave, or why there are none.
pub open spec fn resolved_credentials(user: UserCredentialsView) -> Result<
    CredentialsView,
    ConfigErrorView,
> {
    match resolved_version(user.version, latest_credentials()) {
        Ok(version) => Ok(CredentialsView { version, smtp: user.smtp }),
        Err(error) => Err(error),
    }
}

/// The view of credentials or the error that took their place.
pub open spec fn credentials_result_view(result: Result<Credentials, ConfigError>) -> Result<
    CredentialsView,
    ConfigErrorView,
> {
    match result {
        Ok(credentials) => Ok(credentials@),
        Err(error) => Err(error@),
    }
}

impl Credentials {
    /// Resolves the credentials that the user gave.
    pub fn from_user_credentials(user_credentials: UserCredentials) -> (result: Result<
        Credentials,
        ConfigError,
    >)
        ensures
            credentials_result_view(result) == resolved_credentials(user_credentials@),
            result matches Ok(credentials) ==> credentials_well_formed(credentials@),
    {
        let UserCredentials { version, smtp } = user_credentials;
        match resolve_version(version, latest_credentials_version()) {
            Ok(version) => Ok(Credentials { version, smtp }),
            Err(error) => Err(error),
        }
    }
}

/// Without a request to drop email, every merged setting is that of the
/// command line where it gave one and that of the file where it gave none;
/// with such a request the merged settings hold no email, whatever the two
/// sources say.
pub proof fn lemma_merge_prefers_command_line(cli: UserConfigView, file: UserConfigView)
    ensures
        merged(cli, file, false).version == first_present(cli.version, file.version),
        merged(cli, file, false).desktop_notifications == first_present(
            cli.desktop_notifications,
            file.desktop_notifications,
        ),
        merged(cli, file, false).email == first_present(cli.email, file.email),
        merged(cli, file, false).validate == first_present(cli.validate, file.validate),
        merged(cli, file, false).timeout == first_present(cli.timeout, file.timeout),
        merged(cli, file, true).email is None,
{
}

/// Whatever the user gave, settings that resolve are well formed: their
/// schema version is not above the newest one, and their email settings,
/// if there are any, name a recipient.
pub proof fn lemma_resolved_config_is_well_formed(user: UserConfigView)
    ensures
        resolved_config(user) matches Ok(config) ==> config_well_formed(config),
{
}

/// Whatever the user gave, credentials that resolve are well formed.
pub proof fn lemma_resolved_credentials_are_well_formed(user: UserCredentialsView)
    ensures
        resolved_credentials(user) matches Ok(credentials) ==> credentials_well_formed(
            credentials,
        ),
{
}

/// A user who gave nothing gets desktop notifications and validation
/// switched on, no email, no timeout, and the newest schema version.
pub proof fn lemma_empty_config_resolves_to_defaults()
    ensures
        resolved_config(empty_user_config()) == Ok::<ConfigView, ConfigErrorView>(
            ConfigView {
                version: latest_config(),
                desktop_notifications: true,
                email: None,
                validate: true,
                timeout: None,
            },
        ),
{
}

/// Settings whose list of recipients is empty resolve, where they resolve
/// at all, to settings without email.
pub proof fn lemma_empty_recipients_resolve_to_no_email(user: UserConfigView)
    requires
        user.email == Some(Seq::<Seq<char>>::empty()),
    ensures
        resolved_config(user) matches Ok(config) ==> config.email is None,
{
}

/// No requested version always resolves, to the newest version.
pub proof fn lemma_absent_version_resolves_to_latest(latest: VersionView)
    ensures
        resolved_version(None, latest) == Ok::<VersionView, ConfigErrorView>(latest),
{
}

/// A text that is no semantic version is rejected as malformed, with the
/// message of the parser.
pub proof fn lemma_unparsable_version_is_malformed(text: Seq<char>, latest: VersionView)
    requires
        parsed_version(text) is Err,
    ensures
        resolved_version(Some(text), latest) == Err::<VersionView, ConfigErrorView>(
            ConfigErrorView::MalformedVersion(parsed_version(text)->Err_0),
        ),
{
}

/// A version whose numbers are greater than those of the newest schema,
/// the first differing number deciding, is rejected as invalid. Here the
/// newest schema is the plain release `major.minor.patch`.
pub proof fn lemma_newer_version_is_invalid(
    text: Seq<char>,
    major: nat,
    minor: nat,
    patch: nat,
)
    requires
        parsed_version(text) matches Ok(version) && numbers_lower(
            release(major, minor, patch),
            version,
        ),
    ensures
        resolved_version(Some(text), release(major, minor, patch)) == Err::<
            VersionView,
            ConfigErrorView,
        >(ConfigErrorView::InvalidVersion(parsed_version(text)->Ok_0)),
{
}

/// A version whose numbers are not greater than those of the newest
/// schema is taken as it is, whatever its pre-release part and its build
/// metadata. Here too the newest schema is a plain release.
pub proof fn lemma_older_version_is_kept(text: Seq<char>, major: nat, minor: nat, patch: nat)
    requires
        parsed_version(text) matches Ok(version) && !numbers_lower(
            release(major, minor, patch),
            version,
        ),
    ensures
        resolved_version(Some(text), release(major, minor, patch)) == Ok::<
            VersionView,
            ConfigErrorView,
        >(parsed_version(text)->Ok_0),
{
}

/// What a [`ConfigError`] says to the user.
pub open spec fn config_error_text(error: ConfigErrorView) -> Seq<char> {
    match error {
        ConfigErrorView::MalformedVersion(message) => message,
        ConfigErrorView::InvalidVersion(version) => "Specified config file version ("@
            + version_text(version) + ") is greater than the current version ("@ + version_text(
            latest_credentials(),
        ) + ")."@,
    }
}

/// The newest schema version is written `0.0.1`, so the complaint about
/// too new a version ends with `(0.0.1).`.
pub proof fn lemma_latest_version_text()
    ensures
        version_text(latest_config()) == seq!['0', '.', '0', '.', '1'],
        version_text(latest_credentials()) == seq!['0', '.', '0', '.', '1'],
{
    lemma_release_text(0, 0, 1);
    assert(decimal(0) =~= seq!['0']);
    assert(decimal(1) =~= seq!['1']);
    assert(decimal(0) + seq!['.'] + decimal(0) + seq!['.'] + decimal(1) =~= seq![
        '0',
        '.',
        '0',
        '.',
        '1',
    ]);
}

impl ConfigError {
    /// The error as a message for the user.
    pub fn to_string(&self) -> (text: String)
        ensures
            text@ == config_error_text(self@),
    {
        match self {
            ConfigError::MalformedVersion(message) => message.clone(),
            ConfigError::InvalidVersion(version) => {
                let mut text = String::from_str("Specified config file version (");
                text.append(version.to_string().as_str());
                text.append(") is greater than the current version (");
                text.append(latest_credentials_version().to_string().as_str());
                text.append(").");
                text
            },
        }
    }
}

impl From<Version> for ConfigError {
    fn from(version: Version) -> (error: ConfigError) {
        ConfigError::InvalidVersion(version)
    }
}

impl FromSpecImpl<Version> for ConfigError {
    open spec fn obeys_from_spec() -> bool {
        true
    }

    open spec fn from_spec(version: Version) -> ConfigError {
        ConfigError::InvalidVersion(version)
    }
}

} // verus!
