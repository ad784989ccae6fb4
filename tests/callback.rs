use drift_core::callback::{
    callback_url, choose_callback_port, decoded_or_raw, deep_link_token, extract_token,
    is_auth_deep_link, listen_address, prepare_auth_server, token_field_of, ListenerEvent,
    PORT_HIGH, PORT_LOW,
};
use drift_core::session::AppState;
use drift_core::text::find_first;

#[test]
fn token_is_percent_decoded() {
    let url = "http://localhost:19123/callback?token=abc%20def&state=xyz";
    assert_eq!(extract_token(url), Some("abc def".to_string()));
    assert_eq!(token_field_of(url), Some("abc%20def".to_string()));
}

#[test]
fn token_path_from_listener_request() {
    let mut state = AppState::new();
    let reply = state.on_listener_event(ListenerEvent::Request(
        "/callback?token=abc%20def&state=xyz".to_string(),
    ));
    assert!(reply.respond);
    assert_eq!(reply.notify, Some("abc def".to_string()));
    assert_eq!(state.get_auth_token(), Some("abc def".to_string()));
}

#[test]
fn no_token_key_leaves_store_alone() {
    let mut state = AppState::new();
    state.set_auth_token("old".to_string());
    let reply = state.on_listener_event(ListenerEvent::Request(
        "http://localhost:19123/callback?state=xyz".to_string(),
    ));
    assert!(reply.respond);
    assert_eq!(reply.notify, None);
    assert_eq!(state.get_auth_token(), Some("old".to_string()));
    assert_eq!(extract_token("http://localhost:19123/callback?state=xyz"), None);
}

#[test]
fn timeout_leaves_store_alone() {
    let mut state = AppState::new();
    let reply = state.on_listener_event(ListenerEvent::TimedOut);
    assert!(!reply.respond);
    assert_eq!(reply.notify, None);
    assert_eq!(state.get_auth_token(), None);
    state.set_auth_token("kept".to_string());
    let reply = state.on_listener_event(ListenerEvent::BindFailed);
    assert!(!reply.respond);
    assert_eq!(reply.notify, None);
    assert_eq!(state.get_auth_token(), Some("kept".to_string()));
}

#[test]
fn undecodable_token_is_taken_raw() {
    assert_eq!(extract_token("/callback?token=%FF%FE&x=1"), Some("%FF%FE".to_string()));
    assert_eq!(decoded_or_raw("raw".to_string(), None), "raw");
    assert_eq!(decoded_or_raw("a%20b".to_string(), Some("a b".to_string())), "a b");
}

#[test]
fn token_edges() {
    assert_eq!(extract_token("/callback?token="), Some(String::new()));
    assert_eq!(extract_token("/callback?token=last"), Some("last".to_string()));
    assert_eq!(extract_token("/cb?token=one&token=two"), Some("one".to_string()));
    assert_eq!(extract_token("/cb?a=b+c&token=x+y"), Some("x+y".to_string()));
    assert_eq!(extract_token("/cb?token=caf%C3%A9"), Some("caf\u{e9}".to_string()));
    assert_eq!(extract_token(""), None);
}

#[test]
fn deep_links() {
    assert!(is_auth_deep_link("drift://auth?token=a"));
    assert!(is_auth_deep_link("drift://auth/done?token=a"));
    assert!(is_auth_deep_link("drift://auth"));
    assert!(!is_auth_deep_link("drift://authority?token=a"));
    assert!(!is_auth_deep_link("drift://other?token=a"));
    assert!(!is_auth_deep_link("no scheme here"));
    assert_eq!(deep_link_token("drift://auth?token=x%2By&state=1"), Some("x+y".to_string()));
    assert_eq!(deep_link_token("drift://auth?state=1"), None);
    assert_eq!(deep_link_token("drift://other?token=a"), None);
    assert_eq!(deep_link_token("https://example.com/?token=a"), None);
}

#[test]
fn deep_link_batch_last_write_wins() {
    let mut state = AppState::new();
    let urls = vec![
        "drift://auth?token=first".to_string(),
        "drift://other?token=ignored".to_string(),
        "drift://auth?token=second%21".to_string(),
        "drift://auth?state=none".to_string(),
    ];
    let tokens = state.redeem_deep_links(&urls);
    assert_eq!(tokens, vec!["first".to_string(), "second!".to_string()]);
    assert_eq!(state.get_auth_token(), Some("second!".to_string()));
    let none = state.redeem_deep_links(&Vec::new());
    assert!(none.is_empty());
    assert_eq!(state.get_auth_token(), Some("second!".to_string()));
}

#[test]
fn latest_token_wins_across_channels() {
    let mut state = AppState::new();
    state.on_listener_event(ListenerEvent::Request("/callback?token=a".to_string()));
    assert_eq!(state.get_auth_token(), Some("a".to_string()));
    state.redeem_deep_links(&vec!["drift://auth?token=b".to_string()]);
    assert_eq!(state.get_auth_token(), Some("b".to_string()));
    state.set_auth_token("c".to_string());
    assert_eq!(state.get_auth_token(), Some("c".to_string()));
    state.on_listener_event(ListenerEvent::Request("/callback?token=d".to_string()));
    assert_eq!(state.get_auth_token(), Some("d".to_string()));
}

#[test]
fn ports_stay_in_range() {
    for _ in 0..2000 {
        let p = choose_callback_port();
        assert!(p >= 19000 && p < 20000);
    }
    assert_eq!(PORT_LOW, 19000);
    assert_eq!(PORT_HIGH, 20000);
    for _ in 0..50 {
        let server = prepare_auth_server();
        assert!(server.port >= 19000 && server.port < 20000);
        assert_eq!(server.callback_url, format!("http://localhost:{}/callback", server.port));
        assert_eq!(server.address, format!("127.0.0.1:{}", server.port));
    }
}

#[test]
fn urls_for_ports() {
    assert_eq!(callback_url(19123), "http://localhost:19123/callback");
    assert_eq!(callback_url(0), "http://localhost:0/callback");
    assert_eq!(callback_url(65535), "http://localhost:65535/callback");
    assert_eq!(listen_address(19000), "127.0.0.1:19000");
    assert_eq!(listen_address(7), "127.0.0.1:7");
}

#[test]
fn finding_patterns() {
    assert_eq!(find_first("a token=b", "token="), Some(2));
    assert_eq!(find_first("abc", "abcd"), None);
    assert_eq!(find_first("abc", ""), Some(0));
    assert_eq!(find_first("aab", "ab"), Some(1));
    assert_eq!(find_first("", "x"), None);
}
