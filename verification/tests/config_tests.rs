use celestia_blob_client::config::{
    default_url, starts_with, token_line, transport_of, AuthToken, ClientConfig, ConfigError,
    Transport,
};
use celestia_blob_client::driver::Event;
use celestia_blob_client::error::{exit_code, failure_kind, ErrorKind, Handling};

#[test]
fn default_url_is_a_websocket_on_localhost() {
    assert_eq!(default_url(), "ws://localhost:26658");
    assert_eq!(transport_of(&default_url()), Some(Transport::WebSocket));
}

#[test]
fn scheme_selects_transport() {
    assert_eq!(transport_of("ws://localhost:26658"), Some(Transport::WebSocket));
    assert_eq!(transport_of("wss://node.example:443"), Some(Transport::WebSocket));
    assert_eq!(transport_of("http://localhost:26658"), Some(Transport::Http));
    assert_eq!(transport_of("https://node.example"), Some(Transport::Http));
    assert_eq!(transport_of("ws:"), Some(Transport::WebSocket));
    assert_eq!(transport_of("ftp://localhost"), None);
    assert_eq!(transport_of("localhost:26658"), None);
    assert_eq!(transport_of("WS://localhost"), None);
    assert_eq!(transport_of("wsx://localhost"), None);
    assert_eq!(transport_of("ws"), None);
    assert_eq!(transport_of(""), None);
}

#[test]
fn starts_with_agrees_with_std() {
    let cases = [("", ""), ("abc", ""), ("abc", "ab"), ("abc", "abc"), ("abc", "abcd"),
        ("abc", "b"), ("\u{e9}t\u{e9}", "\u{e9}t"), ("\u{e9}t\u{e9}", "e")];
    for (s, p) in cases {
        assert_eq!(starts_with(s, p), s.starts_with(p));
    }
}

#[test]
fn empty_token_is_refused() {
    assert_eq!(AuthToken::new(String::new()), Err(ConfigError::EmptyToken));
    assert_eq!(
        ClientConfig::new("ws://localhost:26658".to_string(), Some(String::new())),
        Err(ConfigError::EmptyToken)
    );
}

#[test]
fn present_token_is_passed_through_unchanged() {
    let config =
        ClientConfig::new("ws://localhost:26658".to_string(), Some("s3cr3t".to_string())).unwrap();
    assert_eq!(config.bearer(), Some("s3cr3t"));
    assert_eq!(config.url(), "ws://localhost:26658");
    let blank = ClientConfig::new(String::new(), Some(" ".to_string())).unwrap();
    assert_eq!(blank.bearer(), Some(" "));
    assert_eq!(AuthToken::new("t".to_string()).unwrap().as_str(), "t");
}

#[test]
fn absent_token_stays_absent() {
    let config = ClientConfig::new("ws://localhost:26658".to_string(), None).unwrap();
    assert_eq!(config.bearer(), None);
}

#[test]
fn no_token() {
    let config = ClientConfig::new(default_url(), None).unwrap();
    assert_eq!(config.bearer(), None);
    assert_eq!(
        config.banner(),
        vec![
            "URL: ws://localhost:26658",
            "Token: None",
            "WARNING: The authentication token is not provided. Make sure the light node is running with --rpc.skip-auth",
            "  i.e. `celestia light start --core.ip rpc.celestia.pops.one --p2p.network celestia --rpc.skip-auth`",
            "  If you are running a full node, you can set the token with `export CELESTIA_NODE_AUTH_TOKEN=<token>`",
            "",
        ]
    );
}

#[test]
fn banner_with_token_quotes_it() {
    let config =
        ClientConfig::new("http://localhost:26658".to_string(), Some("abc".to_string())).unwrap();
    assert_eq!(config.banner(), vec!["URL: http://localhost:26658", "Token: Some(\"abc\")"]);
    let odd = ClientConfig::new("u".to_string(), Some("a\"b\\c".to_string())).unwrap();
    assert_eq!(odd.banner(), vec!["URL: u", "Token: Some(\"a\\\"b\\\\c\")"]);
}

#[test]
fn token_line_of_both_forms() {
    assert_eq!(token_line(None), "Token: None");
    assert_eq!(token_line(Some("\"x\"")), "Token: Some(\"x\")");
}

#[test]
fn subscription_needs_a_websocket() {
    let config = |url: &str| ClientConfig::new(url.to_string(), None).unwrap();
    assert_eq!(config("ws://localhost:26658").check_subscription(), Ok(()));
    assert_eq!(config("wss://localhost:26658").check_subscription(), Ok(()));
    assert_eq!(
        config("http://localhost:26658").check_subscription(),
        Err(ConfigError::SubscriptionUnsupported)
    );
    assert_eq!(
        config("https://localhost:26658").check_subscription(),
        Err(ConfigError::SubscriptionUnsupported)
    );
    assert_eq!(config("tcp://localhost").check_subscription(), Err(ConfigError::UnsupportedScheme));
    assert_eq!(config("ws://localhost").transport(), Some(Transport::WebSocket));
}

#[test]
fn requests_need_any_known_transport() {
    let config = |url: &str| ClientConfig::new(url.to_string(), None).unwrap();
    assert_eq!(config("ws://localhost:26658").check_request(), Ok(()));
    assert_eq!(config("http://localhost:26658").check_request(), Ok(()));
    assert_eq!(config("localhost").check_request(), Err(ConfigError::UnsupportedScheme));
}

#[test]
fn only_feed_and_query_failures_are_recovered() {
    assert_eq!(ErrorKind::HeaderStream.handling(), Handling::Recovered);
    assert_eq!(ErrorKind::BlobQuery.handling(), Handling::Recovered);
    assert_eq!(ErrorKind::Construction.handling(), Handling::Fatal);
    assert_eq!(ErrorKind::Namespace.handling(), Handling::Fatal);
    assert_eq!(ErrorKind::BlobConstruction.handling(), Handling::Fatal);
    assert_eq!(ErrorKind::Submit.handling(), Handling::Fatal);
    assert!(!ErrorKind::HeaderStream.is_fatal());
    assert!(!ErrorKind::BlobQuery.is_fatal());
    assert!(ErrorKind::Construction.is_fatal());
    assert!(ErrorKind::Submit.is_fatal());
}

#[test]
fn failure_kind_of_events() {
    assert_eq!(
        failure_kind(&Event::HeaderFailed { detail: String::new() }),
        Some(ErrorKind::HeaderStream)
    );
    assert_eq!(
        failure_kind(&Event::BlobsFailed { detail: String::new() }),
        Some(ErrorKind::BlobQuery)
    );
    assert_eq!(failure_kind(&Event::Blobs { count: 0 }), None);
    assert_eq!(failure_kind(&Event::StreamEnded), None);
    assert_eq!(failure_kind(&Event::Header { height: 1, display: String::new() }), None);
}

#[test]
fn exit_code_is_zero_only_on_a_clean_end() {
    assert_eq!(exit_code(None), 0);
    assert_eq!(exit_code(Some(ErrorKind::Construction)), 1);
    assert_eq!(exit_code(Some(ErrorKind::Namespace)), 1);
    assert_eq!(exit_code(Some(ErrorKind::Submit)), 1);
}
