use yupdates::config::EnvLookup;
use yupdates::errors::{Error, Kind};
use yupdates::{
    api_token, env_or_default_url, X_AUTH_TOKEN_HEADER, YUPDATES_API_TOKEN, YUPDATES_API_URL,
    YUPDATES_DEFAULT_API_URL,
};

fn transport_failure() -> reqwest::Error {
    reqwest::Client::new()
        .get("not a url")
        .build()
        .unwrap_err()
}

fn decoding_failure() -> serde_json::Error {
    serde_json::from_str::<serde_json::Value>("{").unwrap_err()
}

#[test]
fn error_messages() {
    let message = |kind: Kind| Error { kind }.message();
    assert_eq!(
        message(Kind::Config("no token".to_string())),
        "Configuration issue: no token"
    );
    assert_eq!(
        message(Kind::Deserialization("missing field".to_string())),
        "Problem deserializing the response: missing field"
    );
    assert_eq!(
        message(Kind::DetailedHttpCode(404, "not found".to_string())),
        "HTTP 404: not found"
    );
    assert_eq!(message(Kind::HttpCode(500)), "HTTP 500");
    assert_eq!(message(Kind::HttpCode(0)), "HTTP 0");
    assert_eq!(message(Kind::HttpCode(u16::MAX)), "HTTP 65535");
    assert_eq!(
        message(Kind::IllegalParameter("too many".to_string())),
        "Illegal parameter: too many"
    );
    assert_eq!(
        message(Kind::IllegalResult("no feed".to_string())),
        "Illegal result: no feed"
    );
}

#[test]
fn error_message_of_a_transport_failure() {
    let text = transport_failure().to_string();
    assert!(!text.is_empty());
    let error = Error {
        kind: Kind::Reqwest(transport_failure()),
    };
    assert_eq!(error.message(), format!("Problem with API call: {}", text));
}

#[test]
fn error_from_a_transport_failure() {
    let error = Error::from(transport_failure());
    assert!(matches!(error.kind, Kind::Reqwest(_)));
}

#[test]
fn error_from_a_decoding_failure() {
    let text = decoding_failure().to_string();
    assert!(!text.is_empty());
    match Error::from(decoding_failure()).kind {
        Kind::Deserialization(message) => assert_eq!(message, text),
        e => panic!("unexpected error type: {:?}", e),
    }
}

#[test]
fn base_url_from_the_environment() {
    let url = |value: &str| env_or_default_url(EnvLookup::Value(value.to_string())).unwrap();
    assert_eq!(url("https://example.com/api/"), "https://example.com/api/");
    assert_eq!(url("https://example.com/api"), "https://example.com/api/");
    assert_eq!(url("/"), "/");
    assert_eq!(url(""), "/");
    assert_eq!(
        env_or_default_url(EnvLookup::NotPresent).unwrap(),
        "https://feeds.yupdates.com/api/v0/"
    );
    match env_or_default_url(EnvLookup::NotUnicode).unwrap_err().kind {
        Kind::Config(text) => assert_eq!(text, "YUPDATES_API_URL is not valid unicode"),
        e => panic!("unexpected error type: {:?}", e),
    }
}

#[test]
fn token_from_the_environment() {
    assert_eq!(
        api_token(EnvLookup::Value("SECRET-REDACTED".to_string())).unwrap(),
        "SECRET-REDACTED"
    );
    match api_token(EnvLookup::NotPresent).unwrap_err().kind {
        Kind::Config(text) => assert_eq!(text, "API token is missing, set YUPDATES_API_TOKEN"),
        e => panic!("unexpected error type: {:?}", e),
    }
    match api_token(EnvLookup::NotUnicode).unwrap_err().kind {
        Kind::Config(text) => assert_eq!(text, "YUPDATES_API_TOKEN is not valid unicode"),
        e => panic!("unexpected error type: {:?}", e),
    }
}

#[test]
fn names_of_the_configuration() {
    assert_eq!(X_AUTH_TOKEN_HEADER, "X-Auth-Token");
    assert_eq!(YUPDATES_API_TOKEN, "YUPDATES_API_TOKEN");
    assert_eq!(YUPDATES_API_URL, "YUPDATES_API_URL");
    assert_eq!(YUPDATES_DEFAULT_API_URL, "https://feeds.yupdates.com/api/v0/");
}
