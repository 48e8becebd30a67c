//! Notifications about a finished run, and the channels that carry them.
//!
//! Nothing here touches the platform or the network. Setting up the
//! channels and delivering a notification are each a sequence of steps:
//! this module says which step is due, something outside performs it and
//! reports how it went, and this module says what follows.

pub mod desktop;
pub mod email;
pub mod notification_info;

use crate::config::{Config, Credentials};
use crate::exit_code::ExitCode;
use crate::incantation::Incantation;
use crate::notifications::desktop::{desktop_error_text, DesktopError, DesktopNotifier, Toast};
use crate::notifications::email::{
    mailer_error_text, message_for, next_stage, send_error, setup_error, Mailer, MailerError,
    MailerFailure, MailerSetup, MailerSetupView, Message, MessageView, SendFailure,
    SmtpCredentialsView, Stage,
};
use crate::notifications::notification_info::{info_of, NotificationInfo, NotificationInfoView};
use crate::DID_IT_RUN_NAME;
use std::time::Duration;
use vstd::prelude::*;
use vstd::std_specs::convert::FromSpecImpl;

verus! {

/// Something worth telling the user about.
#[derive(Clone, Debug)]
pub enum Event {
    /// The command ran to completion.
    Finished { incantation: Incantation, exit_code: ExitCode, elapsed_time: Duration },
}

/// Why the channels could not be set up, or a notification not delivered.
#[derive(Debug)]
pub enum NotifierError {
    Desktop(DesktopError),
    Email(MailerError),
}

impl From<DesktopError> for NotifierError {
    fn from(error: DesktopError) -> (wrapped: NotifierError) {
        NotifierError::Desktop(error)
    }
}

impl FromSpecImpl<DesktopError> for NotifierError {
    open spec fn obeys_from_spec() -> bool {
        true
    }

    open spec fn from_spec(error: DesktopError) -> NotifierError {
        NotifierError::Desktop(error)
    }
}

impl From<MailerError> for NotifierError {
    fn from(error: MailerError) -> (wrapped: NotifierError) {
        NotifierError::Email(error)
    }
}

impl FromSpecImpl<MailerError> for NotifierError {
    open spec fn obeys_from_spec() -> bool {
        true
    }

    open spec fn from_spec(error: MailerError) -> NotifierError {
        NotifierError::Email(error)
    }
}

/// What a [`NotifierError`] says to the user.
pub open spec fn notifier_error_text(error: NotifierError) -> Seq<char> {
    match error {
        NotifierError::Desktop(error) => desktop_error_text(error),
        NotifierError::Email(error) => mailer_error_text(error),
    }
}

impl NotifierError {
    /// The error as a message for the user.
    pub fn to_string(&self) -> (text: String)
        ensures
            text@ == notifier_error_text(*self),
    {
        match self {
            NotifierError::Desktop(error) => error.to_string(),
            NotifierError::Email(error) => error.to_string(),
        }
    }
}

/// A channel that is set up.
#[derive(Debug)]
pub enum Dispatcher {
    Desktop(DesktopNotifier),
    Email(Mailer),
}

/// The mathematical content of a [`Dispatcher`]: which channel it is, and
/// for the email channel who receives the mail.
pub enum DispatcherView {
    Desktop,
    Email(Seq<Seq<char>>),
}

impl View for Dispatcher {
    type V = DispatcherView;

    open spec fn view(&self) -> DispatcherView {
        match *self {
            Dispatcher::Desktop(_) => DispatcherView::Desktop,
            Dispatcher::Email(mailer) => DispatcherView::Email(mailer@),
        }
    }
}

impl DeepView for Dispatcher {
    type V = DispatcherView;

    open spec fn deep_view(&self) -> DispatcherView {
        self@
    }
}

/// The channels of a run, in the order in which they were set up.
#[derive(Debug)]
pub struct Notifier {
    dispatchers: Vec<Dispatcher>,
}

impl View for Notifier {
    type V = Seq<DispatcherView>;

    closed spec fn view(&self) -> Seq<DispatcherView> {
        self.dispatchers.deep_view()
    }
}

#[derive(Debug)]
enum Pending {
    Desktop { mailer: Option<MailerSetup> },
    Mailer(MailerSetup),
    Nothing,
}

/// What is left to set up.
pub enum PendingView {
    /// The notification subsystem of the platform is to be initialised;
    /// the mailer, if there is to be one, is set up after that.
    Desktop { mailer: Option<MailerSetupView> },
    /// The mailer is partway through its setup.
    Mailer(MailerSetupView),
    /// Every channel that was asked for is set up.
    Nothing,
}

/// The channels while they are being set up.
#[derive(Debug)]
pub struct NotifierSetup {
    dispatchers: Vec<Dispatcher>,
    pending: Pending,
}

/// The mathematical content of a [`NotifierSetup`]: the channels that are
/// set up already, in order, and what is left to do.
pub struct NotifierSetupView {
    pub dispatchers: Seq<DispatcherView>,
    pub pending: PendingView,
}

impl View for NotifierSetup {
    type V = NotifierSetupView;

    closed spec fn view(&self) -> NotifierSetupView {
        NotifierSetupView {
            dispatchers: self.dispatchers.deep_view(),
            pending: match self.pending {
                Pending::Desktop { mailer } => PendingView::Desktop {
                    mailer: match mailer {
                        Some(mailer) => Some(mailer@),
                        None => None,
                    },
                },
                Pending::Mailer(mailer) => PendingView::Mailer(mailer@),
                Pending::Nothing => PendingView::Nothing,
            },
        }
    }
}

/// The step of the setup that is due next.
#[derive(Clone, Copy, Debug, PartialEq, Eq, Structural)]
pub enum SetupStep {
    /// Initialise the notification subsystem of the platform.
    InitDesktop,
    /// Perform this step of the setup of the mailer.
    Mailer(Stage),
    /// Nothing: the channels are ready.
    Finished,
}

/// How a step of the setup went.
#[derive(Debug)]
pub enum SetupOutcome {
    Done,
    Desktop(DesktopError),
    Mailer(MailerFailure),
}

/// The step that is due in `setup`.
pub open spec fn step_due(setup: NotifierSetupView) -> SetupStep {
    match setup.pending {
        PendingView::Desktop { .. } => SetupStep::InitDesktop,
        PendingView::Mailer(mailer) => SetupStep::Mailer(mailer.stage),
        PendingView::Nothing => SetupStep::Finished,
    }
}

/// The mailer that the settings ask for, at the start of its setup.
///
/// Settings without email ask for none. Settings with email and no SMTP
/// credentials cannot be served: a channel that was asked for is never
/// dropped in silence.
pub open spec fn mailer_wanted(
    email: Option<Seq<Seq<char>>>,
    smtp: Option<SmtpCredentialsView>,
    validate: bool,
    timeout: Option<Duration>,
) -> Result<Option<MailerSetupView>, NotifierError> {
    match email {
        None => Ok(None),
        Some(recipients) => match smtp {
            None => Err(NotifierError::Email(MailerError::MissingCredentials)),
            Some(credentials) => Ok(
                Some(
                    MailerSetupView {
                        recipients,
                        credentials,
                        validate,
                        timeout,
                        stage: Stage::Resolve,
                    },
                ),
            ),
        },
    }
}

/// The setup at the point where the mailer has its turn, with
/// `dispatchers` set up before it.
pub open spec fn mailer_turn(
    dispatchers: Seq<DispatcherView>,
    mailer: Option<MailerSetupView>,
) -> NotifierSetupView {
    NotifierSetupView {
        dispatchers,
        pending: match mailer {
            Some(mailer) => PendingView::Mailer(mailer),
            None => PendingView::Nothing,
        },
    }
}

/// The setup at its start.
///
/// Email without SMTP credentials ends it before any step is asked for,
/// whether desktop notifications are wanted or not. Otherwise the desktop
/// channel comes first where it is wanted, and the mailer after it.
pub open spec fn started(
    desktop_notifications: bool,
    email: Option<Seq<Seq<char>>>,
    smtp: Option<SmtpCredentialsView>,
    validate: bool,
    timeout: Option<Duration>,
) -> Result<NotifierSetupView, NotifierError> {
    match mailer_wanted(email, smtp, validate, timeout) {
        Err(error) => Err(error),
        Ok(mailer) => if desktop_notifications {
            Ok(
                NotifierSetupView {
                    dispatchers: Seq::empty(),
                    pending: PendingView::Desktop { mailer },
                },
            )
        } else {
            Ok(mailer_turn(Seq::empty(), mailer))
        },
    }
}

/// The setup as it stands after the step that was due went as `outcome`
/// says. A failure ends the setup with its error. A step that is done
/// leads to the next one; a channel whose last step is done joins the
/// channels that are set up.
pub open spec fn progressed(setup: NotifierSetupView, outcome: SetupOutcome) -> Result<
    NotifierSetupView,
    NotifierError,
> {
    match outcome {
        SetupOutcome::Desktop(error) => Err(NotifierError::Desktop(error)),
        SetupOutcome::Mailer(failure) => Err(NotifierError::Email(setup_error(failure))),
        SetupOutcome::Done => match setup.pending {
            PendingView::Desktop { mailer } => Ok(
                mailer_turn(setup.dispatchers.push(DispatcherView::Desktop), mailer),
            ),
            PendingView::Mailer(mailer) => if next_stage(mailer.stage, mailer.validate)
                == Stage::Ready {
                Ok(
                    NotifierSetupView {
                        dispatchers: setup.dispatchers.push(
                            DispatcherView::Email(mailer.recipients),
                        ),
                        pending: PendingView::Nothing,
                    },
                )
            } else {
                Ok(
                    NotifierSetupView {
                        dispatchers: setup.dispatchers,
                        pending: PendingView::Mailer(
                            MailerSetupView {
                                stage: next_stage(mailer.stage, mailer.validate),
                                ..mailer
                            },
                        ),
                    },
                )
            },
            PendingView::Nothing => Ok(setup),
        },
    }
}

/// Settings that ask for email meet credentials without an SMTP part:
/// the setup fails for want of credentials, at once and whatever else the
/// settings say. No step is asked for, so the platform is not touched and
/// no connection is opened.
pub proof fn lemma_email_without_credentials_fails(
    desktop_notifications: bool,
    recipients: Seq<Seq<char>>,
    validate: bool,
    timeout: Option<Duration>,
)
    ensures
        started(desktop_notifications, Some(recipients), None, validate, timeout) == Err::<
            NotifierSetupView,
            NotifierError,
        >(NotifierError::Email(MailerError::MissingCredentials)),
{
}

/// Want of credentials shows at the start or never: no step of a setup
/// ends with that error, however the step went.
pub proof fn lemma_no_step_lacks_credentials(setup: NotifierSetupView, outcome: SetupOutcome)
    ensures
        progressed(setup, outcome) != Err::<NotifierSetupView, NotifierError>(
            NotifierError::Email(MailerError::MissingCredentials),
        ),
{
    match outcome {
        SetupOutcome::Mailer(failure) => {
            assert(setup_error(failure) != MailerError::MissingCredentials);
        },
        _ => {},
    }
}

/// The desktop channel is set up first where it is wanted, and the mailer
/// takes its first step only once the platform is up.
pub proof fn lemma_desktop_comes_first(
    recipients: Seq<Seq<char>>,
    credentials: SmtpCredentialsView,
    validate: bool,
    timeout: Option<Duration>,
)
    ensures
        ({
            &&& started(true, Some(recipients), Some(credentials), validate, timeout) matches Ok(
                setup,
            )
            &&& step_due(setup) == SetupStep::InitDesktop
            &&& progressed(setup, SetupOutcome::Done) matches Ok(next)
            &&& next.dispatchers == seq![DispatcherView::Desktop]
            &&& step_due(next) == SetupStep::Mailer(Stage::Resolve)
        }),
{
    let setup = started(true, Some(recipients), Some(credentials), validate, timeout)->Ok_0;
    let next = progressed(setup, SetupOutcome::Done)->Ok_0;
    assert(next.dispatchers =~= seq![DispatcherView::Desktop]);
}

/// Settings that ask for no channel at all are ready at once, with no
/// channel set up.
pub proof fn lemma_no_channels(
    smtp: Option<SmtpCredentialsView>,
    validate: bool,
    timeout: Option<Duration>,
)
    ensures
        started(false, None, smtp, validate, timeout) == Ok::<NotifierSetupView, NotifierError>(
            NotifierSetupView { dispatchers: Seq::empty(), pending: PendingView::Nothing },
        ),
{
}

/// What a channel is asked to do with a notification.
#[derive(Debug)]
pub enum Dispatch {
    /// Show this popup.
    Desktop(Toast),
    /// Send this message.
    Email(Message),
}

/// The mathematical content of a [`Dispatch`].
pub enum DispatchView {
    Desktop { title: Seq<char>, body: Seq<char> },
    Email(MessageView),
}

impl View for Dispatch {
    type V = DispatchView;

    open spec fn view(&self) -> DispatchView {
        match *self {
            Dispatch::Desktop(toast) => DispatchView::Desktop {
                title: toast.title@,
                body: toast.body@,
            },
            Dispatch::Email(message) => DispatchView::Email(message@),
        }
    }
}

/// How a dispatch went.
#[derive(Debug)]
pub enum DispatchOutcome {
    Done,
    Desktop(DesktopError),
    Email(SendFailure),
}

/// A notification on its way through the channels.
#[derive(Debug)]
pub struct Delivery {
    info: NotificationInfo,
    position: usize,
    channels: usize,
}

/// The mathematical content of a [`Delivery`]: what is said, how many
/// channels have taken it, and how many channels there are.
pub struct DeliveryView {
    pub info: NotificationInfoView,
    pub position: nat,
    pub channels: nat,
}

impl View for Delivery {
    type V = DeliveryView;

    closed spec fn view(&self) -> DeliveryView {
        DeliveryView {
            info: self.info@,
            position: self.position as nat,
            channels: self.channels as nat,
        }
    }
}

/// What `channel` is asked to do with `info`: the desktop shows the
/// summary under the name of the program, the mailer sends the summary as
/// subject and the details as body.
pub open spec fn dispatch_for(channel: DispatcherView, info: NotificationInfoView) -> DispatchView {
    match channel {
        DispatcherView::Desktop => DispatchView::Desktop {
            title: DID_IT_RUN_NAME@,
            body: info.brief,
        },
        DispatcherView::Email(recipients) => DispatchView::Email(
            message_for(recipients, info.brief, info.html_details, info.details),
        ),
    }
}

/// The dispatch that is due: that of the first channel that has not taken
/// the notification yet, if there is one.
pub open spec fn dispatch_due(channels: Seq<DispatcherView>, delivery: DeliveryView) -> Option<
    DispatchView,
> {
    if delivery.position < channels.len() {
        Some(dispatch_for(channels[delivery.position as int], delivery.info))
    } else {
        None
    }
}

/// The error with which a delivery ends when a dispatch goes as `outcome`
/// says, if it ends.
pub open spec fn dispatch_error(outcome: DispatchOutcome) -> Option<NotifierError> {
    match outcome {
        DispatchOutcome::Done => None,
        DispatchOutcome::Desktop(error) => Some(NotifierError::Desktop(error)),
        DispatchOutcome::Email(failure) => Some(NotifierError::Email(send_error(failure))),
    }
}

/// The delivery as it stands after the dispatch that was due went as
/// `outcome` says: the next channel is due, or the delivery has ended with
/// the error of the failure and no further channel is tried.
pub open spec fn delivered(delivery: DeliveryView, outcome: DispatchOutcome) -> Result<
    DeliveryView,
    NotifierError,
> {
    match dispatch_error(outcome) {
        Some(error) => Err(error),
        None => Ok(
            DeliveryView {
                position: if delivery.position < delivery.channels {
                    delivery.position + 1
                } else {
                    delivery.position
                },
                ..delivery
            },
        ),
    }
}

/// The delivery as it stands after the dispatches went as `outcomes` say,
/// one after the other.
pub open spec fn delivered_all(delivery: DeliveryView, outcomes: Seq<DispatchOutcome>) -> Result<
    DeliveryView,
    NotifierError,
>
    decreases outcomes.len(),
{
    if outcomes.len() == 0 {
        Ok(delivery)
    } else {
        match delivered(delivery, outcomes[0]) {
            Ok(next) => delivered_all(next, outcomes.drop_first()),
            Err(error) => Err(error),
        }
    }
}

/// The first failure ends a delivery: its error is the result, whatever
/// the outcomes after it would have been.
pub proof fn lemma_first_failure_ends_delivery(
    delivery: DeliveryView,
    outcomes: Seq<DispatchOutcome>,
    failed: int,
)
    requires
        0 <= failed < outcomes.len(),
        dispatch_error(outcomes[failed]) is Some,
        forall|i: int| 0 <= i < failed ==> dispatch_error(#[trigger] outcomes[i]) is None,
    ensures
        delivered_all(delivery, outcomes) == Err::<DeliveryView, NotifierError>(
            dispatch_error(outcomes[failed])->0,
        ),
    decreases outcomes.len(),
{
    if failed > 0 {
        let next = delivered(delivery, outcomes[0])->Ok_0;
        let rest = outcomes.drop_first();
        assert(dispatch_error(outcomes[0]) is None);
        assert(rest[failed - 1] == outcomes[failed]);
        assert forall|i: int| 0 <= i < failed - 1 implies dispatch_error(#[trigger] rest[i])
            is None by {
            assert(rest[i] == outcomes[i + 1]);
        }
        lemma_first_failure_ends_delivery(next, rest, failed - 1);
    }
}

/// Where every dispatch is done, the delivery goes through the channels
/// one by one and ends without error.
pub proof fn lemma_all_done_delivers(delivery: DeliveryView, outcomes: Seq<DispatchOutcome>)
    requires
        delivery.position + outcomes.len() <= delivery.channels,
        forall|i: int| 0 <= i < outcomes.len() ==> dispatch_error(#[trigger] outcomes[i]) is None,
    ensures
        delivered_all(delivery, outcomes) == Ok::<DeliveryView, NotifierError>(
            DeliveryView { position: delivery.position + outcomes.len(), ..delivery },
        ),
    decreases outcomes.len(),
{
    if outcomes.len() > 0 {
        let next = delivered(delivery, outcomes[0])->Ok_0;
        let rest = outcomes.drop_first();
        assert(dispatch_error(outcomes[0]) is None);
        assert forall|i: int| 0 <= i < rest.len() implies dispatch_error(#[trigger] rest[i])
            is None by {
            assert(rest[i] == outcomes[i + 1]);
        }
        lemma_all_done_delivers(next, rest);
    }
}

impl Notifier {
    /// Starts setting up the channels that `config` asks for, with the
    /// credentials at hand.
    pub fn new(config: Config, credentials: Credentials) -> (result: Result<
        NotifierSetup,
        NotifierError,
    >)
        ensures
            match started(
                config.desktop_notifications,
                config@.email,
                credentials@.smtp,
                config.validate,
                config.timeout,
            ) {
                Ok(begun) => result matches Ok(setup) && setup@ == begun,
                Err(error) => result == Err::<NotifierSetup, NotifierError>(error),
            },
    {
        let desktop_notifications = config.desktop_notifications;
        let mailer = if config.email.is_none() {
            None
        } else {
            match credentials.smtp {
                None => {
                    return Err(NotifierError::from(MailerError::MissingCredentials));
                },
                Some(smtp) => match Mailer::new(config, smtp) {
                    Ok(mailer) => Some(mailer),
                    Err(error) => {
                        return Err(NotifierError::from(error));
                    },
                },
            }
        };
        let dispatchers: Vec<Dispatcher> = Vec::new();
        assert(dispatchers.deep_view() =~= Seq::empty());
        if desktop_notifications {
            Ok(NotifierSetup { dispatchers, pending: Pending::Desktop { mailer } })
        } else {
            Ok(NotifierSetup::mailer_turn(dispatchers, mailer))
        }
    }

    /// How many channels are set up.
    pub fn len(&self) -> (channels: usize)
        ensures
            channels == self@.len(),
    {
        self.dispatchers.len()
    }

    /// Begins the delivery of `info` to every channel.
    pub fn deliver(&self, info: NotificationInfo) -> (delivery: Delivery)
        ensures
            delivery@ == (DeliveryView { info: info@, position: 0, channels: self@.len() }),
    {
        Delivery { info, position: 0, channels: self.dispatchers.len() }
    }

    /// Begins the delivery of what there is to say about `event`. The
    /// text is made once, for all channels.
    pub fn notify(&self, event: Event) -> (delivery: Delivery)
        ensures
            delivery@ == (DeliveryView {
                info: info_of(event),
                position: 0,
                channels: self@.len(),
            }),
    {
        self.deliver(NotificationInfo::from(event))
    }
}

impl NotifierSetup {
    fn mailer_turn(dispatchers: Vec<Dispatcher>, mailer: Option<MailerSetup>) -> (setup:
        NotifierSetup)
        ensures
            setup@ == mailer_turn(
                dispatchers.deep_view(),
                match mailer {
                    Some(mailer) => Some(mailer@),
                    None => None,
                },
            ),
    {
        match mailer {
            Some(mailer) => NotifierSetup { dispatchers, pending: Pending::Mailer(mailer) },
            None => NotifierSetup { dispatchers, pending: Pending::Nothing },
        }
    }

    /// The step that is due next.
    pub fn step(&self) -> (step: SetupStep)
        ensures
            step == step_due(self@),
    {
        match &self.pending {
            Pending::Desktop { .. } => SetupStep::InitDesktop,
            Pending::Mailer(mailer) => SetupStep::Mailer(mailer.stage()),
            Pending::Nothing => SetupStep::Finished,
        }
    }

    /// The mailer that is being set up, while one is.
    pub fn mailer(&self) -> (mailer: Option<&MailerSetup>)
        ensures
            match self@.pending {
                PendingView::Mailer(pending) => mailer matches Some(setup) && setup@ == pending,
                _ => mailer is None,
            },
    {
        match &self.pending {
            Pending::Mailer(mailer) => Some(mailer),
            _ => None,
        }
    }

    /// Takes note of how the step that was due went.
    pub fn advance(self, outcome: SetupOutcome) -> (result: Result<NotifierSetup, NotifierError>)
        ensures
            match progressed(self@, outcome) {
                Ok(next) => result matches Ok(setup) && setup@ == next,
                Err(error) => result == Err::<NotifierSetup, NotifierError>(error),
            },
    {
        let NotifierSetup { dispatchers, pending } = self;
        let mut dispatchers = dispatchers;
        match pending {
            Pending::Desktop { mailer } => {
                let initialized = match outcome {
                    SetupOutcome::Done => Ok(()),
                    SetupOutcome::Desktop(error) => Err(error),
                    SetupOutcome::Mailer(failure) => {
                        return Err(NotifierError::from(MailerError::from_setup(failure)));
                    },
                };
                match DesktopNotifier::new(initialized) {
                    Ok(notifier) => {
                        let ghost before = dispatchers.deep_view();
                        dispatchers.push(Dispatcher::Desktop(notifier));
                        assert(dispatchers.deep_view() =~= before.push(DispatcherView::Desktop));
                        Ok(NotifierSetup::mailer_turn(dispatchers, mailer))
                    },
                    Err(error) => Err(NotifierError::from(error)),
                }
            },
            Pending::Mailer(mailer) => {
                let step = match outcome {
                    SetupOutcome::Done => Ok(()),
                    SetupOutcome::Mailer(failure) => Err(failure),
                    SetupOutcome::Desktop(error) => {
                        return Err(NotifierError::from(error));
                    },
                };
                match mailer.advance(step) {
                    Ok(mailer) => match mailer.finish() {
                        Ok(mailer) => {
                            let ghost before = dispatchers.deep_view();
                            let ghost recipients = mailer@;
                            dispatchers.push(Dispatcher::Email(mailer));
                            assert(dispatchers.deep_view() =~= before.push(
                                DispatcherView::Email(recipients),
                            ));
                            Ok(NotifierSetup { dispatchers, pending: Pending::Nothing })
                        },
                        Err(mailer) => Ok(
                            NotifierSetup { dispatchers, pending: Pending::Mailer(mailer) },
                        ),
                    },
                    Err(error) => Err(NotifierError::from(error)),
                }
            },
            Pending::Nothing => match outcome {
                SetupOutcome::Done => Ok(NotifierSetup { dispatchers, pending: Pending::Nothing }),
                SetupOutcome::Desktop(error) => Err(NotifierError::from(error)),
                SetupOutcome::Mailer(failure) => Err(
                    NotifierError::from(MailerError::from_setup(failure)),
                ),
            },
        }
    }

    /// The channels, once every one is set up; the setup itself before
    /// that.
    pub fn finish(self) -> (result: Result<Notifier, NotifierSetup>)
        ensures
            match result {
                Ok(notifier) => step_due(self@) == SetupStep::Finished && notifier@
                    == self@.dispatchers,
                Err(setup) => step_due(self@) != SetupStep::Finished && setup == self,
            },
    {
        match self.pending {
            Pending::Nothing => Ok(Notifier { dispatchers: self.dispatchers }),
            _ => Err(self),
        }
    }
}

impl Delivery {
    /// What is being said.
    pub fn info(&self) -> (info: &NotificationInfo)
        ensures
            info@ == self@.info,
    {
        &self.info
    }

    /// Whether every channel has taken the notification.
    pub fn is_complete(&self) -> (complete: bool)
        ensures
            complete == (self@.position >= self@.channels),
    {
        self.position >= self.channels
    }

    /// The dispatch that is due next among the channels of `notifier`, if
    /// one is.
    pub fn dispatch(&self, notifier: &Notifier) -> (dispatch: Option<Dispatch>)
        ensures
            match dispatch_due(notifier@, self@) {
                Some(due) => dispatch matches Some(found) && found@ == due,
                None => dispatch is None,
            },
    {
        if self.position < notifier.dispatchers.len() {
            let info = &self.info;
            match &notifier.dispatchers[self.position] {
                Dispatcher::Desktop(desktop) => Some(
                    Dispatch::Desktop(desktop.dispatch_notification(info)),
                ),
                Dispatcher::Email(mailer) => {
                    let copy = NotificationInfo {
                        brief: info.brief.clone(),
                        details: info.details.clone(),
                        html_details: info.html_details.clone(),
                    };
                    Some(Dispatch::Email(mailer.dispatch_notification(copy)))
                },
            }
        } else {
            None
        }
    }

    /// Takes note of how the dispatch that was due went.
    pub fn advance(self, outcome: DispatchOutcome) -> (result: Result<Delivery, NotifierError>)
        ensures
            match delivered(self@, outcome) {
                Ok(next) => result matches Ok(delivery) && delivery@ == next,
                Err(error) => result == Err::<Delivery, NotifierError>(error),
            },
    {
        match outcome {
            DispatchOutcome::Done => {
                let position = if self.position < self.channels {
                    self.position + 1
                } else {
                    self.position
                };
                Ok(Delivery { info: self.info, position, channels: self.channels })
            },
            DispatchOutcome::Desktop(error) => Err(NotifierError::from(error)),
            DispatchOutcome::Email(failure) => Err(
                NotifierError::from(MailerError::from_send(failure)),
            ),
        }
    }
}

} // verus!
