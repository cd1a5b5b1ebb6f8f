use lapi_client::client::LapiClient;
use lapi_client::engine::StreamState;
use lapi_client::errors::Error;
use lapi_client::options::DecisionsStreamOptionsBuilder;

#[test]
fn test_first_fetch_waits_for_nothing() {
    let state = StreamState::new(DecisionsStreamOptionsBuilder::new().build());
    assert_eq!(state.wait_before_fetch(123_456, 5_000), 0);
}

#[test]
fn test_wait_is_the_rest_of_the_interval() {
    let mut state = StreamState::new(DecisionsStreamOptionsBuilder::new().build());
    state.note_fetch_issued(1_000);
    // the first fetch took two of the five seconds: wait the missing three
    assert_eq!(state.wait_before_fetch(3_000, 5_000), 2_000 + 1_000);
    // the whole interval has elapsed: no wait at all
    assert_eq!(state.wait_before_fetch(6_000, 5_000), 0);
    assert_eq!(state.wait_before_fetch(99_000, 5_000), 0);
}

#[test]
fn test_startup_cleared_after_first_success_only() {
    let caller_options = DecisionsStreamOptionsBuilder::new().startup(true).build();
    let mut state = StreamState::new(caller_options.clone());
    assert!(state.options.startup);
    let go_on = state.note_fetch_outcome(true);
    assert!(go_on);
    assert!(!state.options.startup);
    // the caller's own options value is unaffected: the stream owns a copy
    assert!(caller_options.startup);
}

#[test]
fn test_failed_fetch_ends_stream_and_keeps_options() {
    let mut state = StreamState::new(DecisionsStreamOptionsBuilder::new().startup(true).build());
    let go_on = state.note_fetch_outcome(false);
    assert!(!go_on);
    assert!(state.options.startup);
}

#[test]
fn test_api_key_with_newline_is_config_error() {
    let host = reqwest::Url::parse("http://127.0.0.1:8080").unwrap();
    let result = LapiClient::try_from_api_key(host, "abc\ndef".to_string());
    assert!(matches!(result, Err(Error::ConfigError)));
}

#[test]
fn test_api_key_with_control_byte_is_config_error() {
    let host = reqwest::Url::parse("http://127.0.0.1:8080").unwrap();
    assert!(matches!(
        LapiClient::try_from_api_key(host.clone(), "\u{7f}".to_string()),
        Err(Error::ConfigError)
    ));
    // the horizontal tab, by contrast, is a lawful header byte
    assert!(LapiClient::try_from_api_key(host, "a\tb".to_string()).is_ok());
}

#[test]
fn test_valid_api_key_is_kept() {
    let host = reqwest::Url::parse("http://127.0.0.1:8080").unwrap();
    let client = LapiClient::try_from_api_key(host.clone(), "some-api-key".to_string()).unwrap();
    assert_eq!(client.api_key().as_str(), "some-api-key");
    assert_eq!(client.host(), &host);
}

#[test]
fn test_status_classification() {
    assert!(lapi_client::errors::check_status(200).is_ok());
    assert!(lapi_client::errors::check_status(204).is_ok());
    assert!(lapi_client::errors::check_status(299).is_ok());
    assert_eq!(
        lapi_client::errors::check_status(199),
        Err(Error::HttpStatusError(199))
    );
    assert_eq!(
        lapi_client::errors::check_status(404),
        Err(Error::HttpStatusError(404))
    );
    assert_eq!(
        lapi_client::errors::check_status(500),
        Err(Error::HttpStatusError(500))
    );
}

#[test]
fn test_error_descriptions() {
    assert_eq!(Error::ConfigError.describe(), "invalid configuration");
    assert_eq!(Error::TransportError.describe(), "transport failure");
    assert_eq!(Error::HttpStatusError(503).describe(), "unexpected http status");
    assert_eq!(
        Error::DecodeError.describe(),
        "failed to decode decisions stream response"
    );
}

#[test]
fn test_user_agent_names_the_client() {
    assert_eq!(lapi_client::client::user_agent(), "lapi_client");
}
