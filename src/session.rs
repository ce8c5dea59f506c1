//! The bot's session: from each thing that happened to the next thing to do.
//!
//! The caller performs every action (reading the file, logging in, sending a
//! reply) and reports what came of it as the next event.
use vstd::prelude::*;
use crate::config::{
    example_token, parse_error_text, unreadable_config_text, Configuration,
    parse_error_notice, unreadable_config_notice,
};

verus! {

/// The text sent in answer to every message.
pub open spec fn reply_text() -> Seq<char> {
    "test"@
}

/// What is shown once the login has succeeded, with the account's name.
pub open spec fn authorized_text(username: Seq<char>) -> Seq<char> {
    "Authorized on account "@ + username
}

/// What is shown when the service reports an account without a name.
pub open spec fn nameless_account_text() -> Seq<char> {
    "The authorized account has no username"@
}

/// How far the session has come.
#[derive(PartialEq, Eq, Structural, Clone, Copy, Debug)]
pub enum Phase {
    /// Waiting to learn what the configuration file holds.
    AwaitingConfig,
    /// The login has been asked for; waiting for its answer.
    AwaitingLogin,
    /// Logged in; answering messages.
    Serving,
    /// The session is over.
    Stopped,
}

/// Something that happened, as reported by the caller.
#[derive(Debug)]
pub enum Event {
    /// There is no configuration file.
    ConfigMissing,
    /// The configuration file exists but could not be read.
    ConfigUnreadable,
    /// The configuration file does not parse; `error` describes the fault.
    ConfigInvalid { error: String },
    /// The configuration file was read and parsed.
    ConfigLoaded { config: Configuration },
    /// The login succeeded, for the account of this name if it has one.
    LoginSucceeded { username: Option<String> },
    /// The login failed; `error` describes the fault.
    LoginFailed { error: String },
    /// A message arrived in the chat of this id.
    MessageReceived { chat_id: i64 },
}

/// The next thing for the caller to do.
#[derive(Debug)]
pub enum Action {
    /// Show the missing-configuration text around this example, written out
    /// as JSON, and end normally.
    ShowExample { example: Configuration },
    /// Show this text and end normally.
    Stop { notice: String },
    /// Show this text and end as a failure.
    Fail { notice: String },
    /// Log in to the service with this access token.
    LogIn { token: String },
    /// Show this text, then receive messages and report each one.
    Serve { notice: String },
    /// Send this text to the chat of this id.
    Reply { chat_id: i64, text: String },
    /// Nothing: the event means nothing in the current phase.
    Ignore,
}

/// An event, with its texts as character sequences.
pub enum EventView {
    ConfigMissing,
    ConfigUnreadable,
    ConfigInvalid { error: Seq<char> },
    ConfigLoaded { token: Seq<char> },
    LoginSucceeded { username: Option<Seq<char>> },
    LoginFailed { error: Seq<char> },
    MessageReceived { chat_id: i64 },
}

/// An action, with its texts as character sequences; an example
/// configuration is seen as its token.
pub enum ActionView {
    ShowExample { token: Seq<char> },
    Stop { notice: Seq<char> },
    Fail { notice: Seq<char> },
    LogIn { token: Seq<char> },
    Serve { notice: Seq<char> },
    Reply { chat_id: i64, text: Seq<char> },
    Ignore,
}

impl View for Event {
    type V = EventView;

    open spec fn view(&self) -> EventView {
        match self {
            Event::ConfigMissing => EventView::ConfigMissing,
            Event::ConfigUnreadable => EventView::ConfigUnreadable,
            Event::ConfigInvalid { error } => EventView::ConfigInvalid { error: error@ },
            Event::ConfigLoaded { config } => EventView::ConfigLoaded {
                token: config.telegram_api_token@,
            },
            Event::LoginSucceeded { username } => EventView::LoginSucceeded {
                username: match username {
                    Some(name) => Some(name@),
                    None => None,
                },
            },
            Event::LoginFailed { error } => EventView::LoginFailed { error: error@ },
            Event::MessageReceived { chat_id } => EventView::MessageReceived { chat_id: *chat_id },
        }
    }
}

impl View for Action {
    type V = ActionView;

    open spec fn view(&self) -> ActionView {
        match self {
            Action::ShowExample { example } => ActionView::ShowExample {
                token: example.telegram_api_token@,
            },
            Action::Stop { notice } => ActionView::Stop { notice: notice@ },
            Action::Fail { notice } => ActionView::Fail { notice: notice@ },
            Action::LogIn { token } => ActionView::LogIn { token: token@ },
            Action::Serve { notice } => ActionView::Serve { notice: notice@ },
            Action::Reply { chat_id, text } => ActionView::Reply { chat_id: *chat_id, text: text@ },
            Action::Ignore => ActionView::Ignore,
        }
    }
}

/// The session's rule: the phase it moves to and the action it asks for,
/// given the phase it is in and the event that happened.
pub open spec fn transition(phase: Phase, event: EventView) -> (Phase, ActionView) {
    match phase {
        Phase::AwaitingConfig => match event {
            EventView::ConfigMissing => (
                Phase::Stopped,
                ActionView::ShowExample { token: example_token() },
            ),
            EventView::ConfigUnreadable => (
                Phase::Stopped,
                ActionView::Fail { notice: unreadable_config_text() },
            ),
            EventView::ConfigInvalid { error } => (
                Phase::Stopped,
                ActionView::Stop { notice: parse_error_text(error) },
            ),
            EventView::ConfigLoaded { token } => (
                Phase::AwaitingLogin,
                ActionView::LogIn { token },
            ),
            _ => (Phase::AwaitingConfig, ActionView::Ignore),
        },
        Phase::AwaitingLogin => match event {
            EventView::LoginSucceeded { username: Some(name) } => (
                Phase::Serving,
                ActionView::Serve { notice: authorized_text(name) },
            ),
            EventView::LoginSucceeded { username: None } => (
                Phase::Stopped,
                ActionView::Fail { notice: nameless_account_text() },
            ),
            EventView::LoginFailed { error } => (
                Phase::Stopped,
                ActionView::Fail { notice: error },
            ),
            _ => (Phase::AwaitingLogin, ActionView::Ignore),
        },
        Phase::Serving => match event {
            EventView::MessageReceived { chat_id } => (
                Phase::Serving,
                ActionView::Reply { chat_id, text: reply_text() },
            ),
            _ => (Phase::Serving, ActionView::Ignore),
        },
        Phase::Stopped => (Phase::Stopped, ActionView::Ignore),
    }
}

/// The text sent in answer to every message.
pub fn reply_message() -> (r: String)
    ensures
        r@ == reply_text(),
{
    String::from_str("test")
}

/// The text shown once the login has succeeded as `username`.
pub fn authorized_notice(username: &str) -> (r: String)
    ensures
        r@ == authorized_text(username@),
{
    String::from_str("Authorized on account ").concat(username)
}

/// The bot's session, in the phase it has reached.
pub struct Session {
    pub phase: Phase,
}

impl Session {
    /// A session that has not yet looked at its configuration.
    pub fn new() -> (r: Session)
        ensures
            r.phase == Phase::AwaitingConfig,
    {
        Session { phase: Phase::AwaitingConfig }
    }

    /// Takes in what happened, moves to the next phase and says what to do.
    pub fn handle(&mut self, event: Event) -> (action: Action)
        ensures
            (final(self).phase, action@) == transition(old(self).phase, event@),
    {
        let (phase, action) = match self.phase {
            Phase::AwaitingConfig => match event {
                Event::ConfigMissing => (
                    Phase::Stopped,
                    Action::ShowExample { example: Configuration::example() },
                ),
                Event::ConfigUnreadable => (
                    Phase::Stopped,
                    Action::Fail { notice: unreadable_config_notice() },
                ),
                Event::ConfigInvalid { error } => (
                    Phase::Stopped,
                    Action::Stop { notice: parse_error_notice(error.as_str()) },
                ),
                Event::ConfigLoaded { config } => (
                    Phase::AwaitingLogin,
                    Action::LogIn { token: config.telegram_api_token },
                ),
                _ => (Phase::AwaitingConfig, Action::Ignore),
            },
            Phase::AwaitingLogin => match event {
                Event::LoginSucceeded { username: Some(name) } => (
                    Phase::Serving,
                    Action::Serve { notice: authorized_notice(name.as_str()) },
                ),
                Event::LoginSucceeded { username: None } => (
                    Phase::Stopped,
                    Action::Fail {
                        notice: String::from_str("The authorized account has no username"),
                    },
                ),
                Event::LoginFailed { error } => (Phase::Stopped, Action::Fail { notice: error }),
                _ => (Phase::AwaitingLogin, Action::Ignore),
            },
            Phase::Serving => match event {
                Event::MessageReceived { chat_id } => (
                    Phase::Serving,
                    Action::Reply { chat_id, text: reply_message() },
                ),
                _ => (Phase::Serving, Action::Ignore),
            },
            Phase::Stopped => (Phase::Stopped, Action::Ignore),
        };
        self.phase = phase;
        action
    }
}

} // verus!
