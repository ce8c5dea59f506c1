use reply_bot::config::{
    config_file_path, missing_config_notice, parse_error_notice, unreadable_config_notice,
    Configuration,
};
use reply_bot::session::{authorized_notice, reply_message, Action, Event, Phase, Session};

fn loaded(token: &str) -> Event {
    Event::ConfigLoaded { config: Configuration { telegram_api_token: token.to_string() } }
}

fn serving_session() -> Session {
    let mut session = Session::new();
    session.handle(loaded("123:abc"));
    session.handle(Event::LoginSucceeded { username: Some("my_bot".to_string()) });
    assert_eq!(session.phase, Phase::Serving);
    session
}

#[test]
fn new_session_awaits_config() {
    assert_eq!(Session::new().phase, Phase::AwaitingConfig);
}

#[test]
fn missing_config_shows_example_and_stops() {
    let mut session = Session::new();
    match session.handle(Event::ConfigMissing) {
        Action::ShowExample { example } => {
            assert_eq!(example.telegram_api_token, "telegramtoken:data")
        }
        other => panic!("unexpected action {:?}", other),
    }
    assert_eq!(session.phase, Phase::Stopped);
}

#[test]
fn missing_config_never_logs_in() {
    let mut session = Session::new();
    session.handle(Event::ConfigMissing);
    assert!(matches!(session.handle(loaded("123:abc")), Action::Ignore));
    assert!(matches!(
        session.handle(Event::LoginSucceeded { username: Some("b".to_string()) }),
        Action::Ignore
    ));
    assert!(matches!(session.handle(Event::MessageReceived { chat_id: 1 }), Action::Ignore));
    assert_eq!(session.phase, Phase::Stopped);
}

#[test]
fn example_configuration_token() {
    assert_eq!(Configuration::example().telegram_api_token, "telegramtoken:data");
}

#[test]
fn missing_config_notice_frames_example() {
    let json = "{\n  \"telegram_api_token\": \"telegramtoken:data\"\n}";
    assert_eq!(
        missing_config_notice(json),
        "Please create config.json file.\nExample:\n{\n  \"telegram_api_token\": \"telegramtoken:data\"\n}"
    );
}

#[test]
fn invalid_config_reports_parse_error() {
    let error = serde_json::from_str::<serde_json::Value>("{ not json").unwrap_err().to_string();
    assert!(error.contains("line 1"));
    let mut session = Session::new();
    match session.handle(Event::ConfigInvalid { error: error.clone() }) {
        Action::Stop { notice } => {
            assert_eq!(notice, format!("Error parsing config.json: {}", error))
        }
        other => panic!("unexpected action {:?}", other),
    }
    assert_eq!(session.phase, Phase::Stopped);
    assert!(matches!(session.handle(loaded("123:abc")), Action::Ignore));
}

#[test]
fn parse_error_notice_text() {
    assert_eq!(
        parse_error_notice("expected value at line 1 column 1"),
        "Error parsing config.json: expected value at line 1 column 1"
    );
}

#[test]
fn unreadable_config_fails() {
    let mut session = Session::new();
    match session.handle(Event::ConfigUnreadable) {
        Action::Fail { notice } => assert_eq!(notice, "Can't read file config.json"),
        other => panic!("unexpected action {:?}", other),
    }
    assert_eq!(session.phase, Phase::Stopped);
    assert_eq!(unreadable_config_notice(), "Can't read file config.json");
}

#[test]
fn config_path_is_config_json() {
    assert_eq!(config_file_path(), "config.json");
}

#[test]
fn valid_config_logs_in_once() {
    let mut session = Session::new();
    match session.handle(loaded("123:abc")) {
        Action::LogIn { token } => assert_eq!(token, "123:abc"),
        other => panic!("unexpected action {:?}", other),
    }
    assert_eq!(session.phase, Phase::AwaitingLogin);
    assert!(matches!(session.handle(loaded("456:def")), Action::Ignore));
    assert!(matches!(session.handle(Event::MessageReceived { chat_id: 3 }), Action::Ignore));
    match session.handle(Event::LoginSucceeded { username: Some("my_bot".to_string()) }) {
        Action::Serve { notice } => assert_eq!(notice, "Authorized on account my_bot"),
        other => panic!("unexpected action {:?}", other),
    }
    assert_eq!(session.phase, Phase::Serving);
    assert!(matches!(session.handle(loaded("456:def")), Action::Ignore));
}

#[test]
fn login_failure_fails() {
    let mut session = Session::new();
    session.handle(loaded("123:abc"));
    match session.handle(Event::LoginFailed { error: "Unauthorized".to_string() }) {
        Action::Fail { notice } => assert_eq!(notice, "Unauthorized"),
        other => panic!("unexpected action {:?}", other),
    }
    assert_eq!(session.phase, Phase::Stopped);
}

#[test]
fn nameless_account_fails() {
    let mut session = Session::new();
    session.handle(loaded("123:abc"));
    match session.handle(Event::LoginSucceeded { username: None }) {
        Action::Fail { notice } => assert_eq!(notice, "The authorized account has no username"),
        other => panic!("unexpected action {:?}", other),
    }
    assert_eq!(session.phase, Phase::Stopped);
}

#[test]
fn authorized_notice_text() {
    assert_eq!(authorized_notice("my_bot"), "Authorized on account my_bot");
    assert_eq!(authorized_notice(""), "Authorized on account ");
}

#[test]
fn every_message_gets_one_test_reply() {
    let mut session = serving_session();
    for chat_id in [42i64, -1001234567890, 42, 0, i64::MAX] {
        match session.handle(Event::MessageReceived { chat_id }) {
            Action::Reply { chat_id: to, text } => {
                assert_eq!(to, chat_id);
                assert_eq!(text, "test");
            }
            other => panic!("unexpected action {:?}", other),
        }
        assert_eq!(session.phase, Phase::Serving);
    }
    assert_eq!(reply_message(), "test");
}
