use usermon::auth::{
    auth_url, callback_reply, default_portal, finish_login, login_portal, parse_callback,
    secret_preview, user_label, CallbackParams, Credentials, FAILURE_REPLY, SUCCESS_HTML,
};

#[test]
fn callback_fields_are_read_from_the_query() {
    let p = parse_callback("GET /callback?token=abc123&email=a@b.c&userId=u_1&state=x HTTP/1.1\r\n");
    assert_eq!(p.token, "abc123");
    assert_eq!(p.email.as_deref(), Some("a@b.c"));
    assert_eq!(p.user_id.as_deref(), Some("u_1"));
}

#[test]
fn callback_without_query_has_no_fields() {
    let p = parse_callback("GET /callback HTTP/1.1");
    assert_eq!(p, CallbackParams { token: String::new(), email: None, user_id: None });
    let p = parse_callback("");
    assert_eq!(p.token, "");
}

#[test]
fn callback_later_pairs_win_and_values_may_hold_equals() {
    let p = parse_callback("GET /cb?token=a&token=b=c&email HTTP/1.1");
    assert_eq!(p.token, "b=c");
    assert_eq!(p.email.as_deref(), Some(""));
    assert!(p.user_id.is_none());
    let p = parse_callback("  GET\t/cb?x=1&&userId=z   HTTP/1.1");
    assert_eq!(p.user_id.as_deref(), Some("z"));
    assert_eq!(p.token, "");
}

#[test]
fn login_needs_a_token() {
    let none = CallbackParams { token: String::new(), email: None, user_id: None };
    assert_eq!(
        finish_login(none.clone(), "https://app.usermon.dev".to_string(), 1),
        Err("Authentication failed: No token received in callback".to_string())
    );
    assert_eq!(callback_reply(&none), FAILURE_REPLY);
    let some = CallbackParams { token: "t".to_string(), email: Some("e".to_string()), user_id: None };
    assert_eq!(
        finish_login(some.clone(), "p".to_string(), 9),
        Ok(Credentials {
            token: "t".to_string(),
            email: Some("e".to_string()),
            user_id: None,
            portal_url: "p".to_string(),
            created_at: 9,
        })
    );
    let reply = callback_reply(&some);
    let expected = format!(
        "HTTP/1.1 200 OK\r\nContent-Type: text/html\r\nContent-Length: {}\r\n\r\n{}",
        SUCCESS_HTML.len(),
        SUCCESS_HTML
    );
    assert_eq!(reply, expected);
}

#[test]
fn browser_is_sent_to_the_portal() {
    assert_eq!(login_portal(None), "https://app.usermon.dev");
    assert_eq!(login_portal(Some("https://portal.test///")), "https://portal.test");
    assert_eq!(
        auth_url("https://portal.test", 54321, "0123abcd"),
        "https://portal.test/cli/auth?port=54321&state=0123abcd"
    );
    assert_eq!(auth_url("p", 0, ""), "p/cli/auth?port=0&state=");
    assert_eq!(default_portal(), "https://app.usermon.dev");
}

#[test]
fn manual_token_credentials() {
    let c = Credentials::from_token("tok".to_string(), None, 3);
    assert_eq!(c.portal_url, "https://app.usermon.dev");
    assert!(c.email.is_none() && c.user_id.is_none());
    let c = Credentials::from_token("tok".to_string(), Some("https://p".to_string()), 3);
    assert_eq!(c.portal_url, "https://p");
}

#[test]
fn secrets_are_shown_shortened() {
    assert_eq!(secret_preview("um_1234567890"), "um_12345...");
    assert_eq!(secret_preview("12345678"), "12345678");
    assert_eq!(secret_preview(""), "");
    let c = Credentials::from_token("abcdefghijk".to_string(), None, 0);
    assert_eq!(user_label(&c), "abcdefgh");
    let c = Credentials::from_token("abc".to_string(), None, 0);
    assert_eq!(user_label(&c), "abc");
    let mut c = Credentials::from_token("abcdefghijk".to_string(), None, 0);
    c.email = Some("me@x.y".to_string());
    assert_eq!(user_label(&c), "me@x.y");
}

#[test]
fn portal_token_is_the_token_read() {
    let p = parse_callback("GET /cli/callback?token=tok_123 HTTP/1.1\r\n");
    assert_eq!(p, CallbackParams { token: "tok_123".to_string(), email: None, user_id: None });
}
