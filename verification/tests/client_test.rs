use usermon::client::{
    check_reply, epoch_millis_to_u64, exception_batch, hex_prefix, log_batch, session_batch,
    session_key_or_new, span_batch, span_batch_upper, HttpMethod, DEFAULT_ENDPOINT,
};
use usermon::{IssueLevel, LogLevel, Platform, UsermonClient, UsermonError};

#[test]
fn endpoint_is_normalised() {
    let c = UsermonClient::new("https://x.convex.site/", "um_k");
    assert_eq!(c.ingest_url(), "https://x.convex.site");
    let c = UsermonClient::new("  https://x.convex.site/v1/ingest/  ", "um_k");
    assert_eq!(c.ingest_url(), "https://x.convex.site");
    let c = UsermonClient::new("https://x.convex.site/v1/ingest", "um_k");
    assert_eq!(c.ingest_url(), "https://x.convex.site");
    let c = UsermonClient::new("https://x.convex.site//v1/ingest", "um_k");
    assert_eq!(c.ingest_url(), "https://x.convex.site");
    let c = UsermonClient::new("https://x.convex.site/api", "um_k");
    assert_eq!(c.ingest_url(), "https://x.convex.site/api");
    assert_eq!(c.ingest_key(), "um_k");
}

#[test]
fn blank_endpoint_uses_default() {
    assert_eq!(UsermonClient::new("", "k").ingest_url(), DEFAULT_ENDPOINT);
    assert_eq!(UsermonClient::new(" \t\n", "k").ingest_url(), "https://ingest.usermon.dev");
}

#[test]
fn only_one_ingest_suffix_is_removed() {
    let c = UsermonClient::new("https://h/v1/ingest/v1/ingest", "k");
    assert_eq!(c.ingest_url(), "https://h/v1/ingest");
    let c = UsermonClient::new("/", "k");
    assert_eq!(c.ingest_url(), "");
}

#[test]
fn ingest_path_suffix_is_ignored() {
    let a = UsermonClient::new("https://h.example/base", "k");
    let b = UsermonClient::new("https://h.example/base/v1/ingest", "k");
    assert_eq!(a.ingest_url(), b.ingest_url());
}

#[test]
fn requests_have_the_wire_shape() {
    let c = UsermonClient::new("https://h.example", "um_secret");
    assert_eq!(c.auth_header(), "Bearer um_secret");
    let h = c.health_request();
    assert_eq!(h.method, HttpMethod::Get);
    assert_eq!(h.url, "https://h.example/health");
    assert!(h.headers.is_empty());
    assert!(h.body.is_none());
    let r = c.ingest_request("{}".to_string());
    assert_eq!(r.method, HttpMethod::Post);
    assert_eq!(r.url, "https://h.example/v1/ingest");
    assert_eq!(
        r.headers,
        vec![
            ("Authorization".to_string(), "Bearer um_secret".to_string()),
            ("Content-Type".to_string(), "application/json".to_string()),
        ]
    );
    assert_eq!(r.body, Some("{}".to_string()));
}

#[test]
fn replies_are_judged_by_status() {
    assert_eq!(check_reply(200, "ok".to_string()), Ok("ok".to_string()));
    assert_eq!(check_reply(299, "b".to_string()), Ok("b".to_string()));
    assert_eq!(
        check_reply(199, "b".to_string()),
        Err(UsermonError::Api { status: 199, body: "b".to_string() })
    );
    assert_eq!(
        check_reply(401, "unauthorized".to_string()),
        Err(UsermonError::Api { status: 401, body: "unauthorized".to_string() })
    );
    assert_eq!(
        check_reply(300, String::new()),
        Err(UsermonError::Api { status: 300, body: String::new() })
    );
}

#[test]
fn epoch_millis_are_truncated_or_zero() {
    assert_eq!(epoch_millis_to_u64(None), 0);
    assert_eq!(epoch_millis_to_u64(Some(1_710_000_000_000)), 1_710_000_000_000);
    assert_eq!(epoch_millis_to_u64(Some((1u128 << 64) + 5)), 5);
}

#[test]
fn hex_ids_have_the_length_asked_for() {
    let id = "0123456789abcdef0123456789abcdef";
    assert_eq!(hex_prefix(id, 8), "01234567");
    assert_eq!(hex_prefix(id, 0), "");
    assert_eq!(hex_prefix(id, 32), id);
    for n in [0usize, 1, 16, 31, 32, 33, 40, 64, 100] {
        let h = usermon::client::hex_id(n);
        assert_eq!(h.len(), n);
        assert!(h.chars().all(|c| c.is_ascii_digit() || ('a'..='f').contains(&c)));
    }
    assert_ne!(usermon::client::hex_id(32), usermon::client::hex_id(32));
}

#[test]
fn exception_batch_carries_one_exception() {
    let b = exception_batch(
        "Payment failed".to_string(),
        None,
        Platform::Web,
        Some("/api/checkout".to_string()),
        Some(IssueLevel::Error),
        Some("2.1.0".to_string()),
        None,
        None,
        42,
    );
    assert_eq!(b.exceptions.len(), 1);
    assert!(b.sessions.is_empty() && b.logs.is_empty() && b.api_spans.is_empty());
    let e = &b.exceptions[0];
    assert_eq!(e.message, "Payment failed");
    assert_eq!(e.route.as_deref(), Some("/api/checkout"));
    assert_eq!(e.level, Some(IssueLevel::Error));
    assert_eq!(e.release.as_deref(), Some("2.1.0"));
    assert_eq!(e.timestamp, 42);
}

#[test]
fn log_batch_carries_one_log() {
    let b = log_batch(
        LogLevel::Warn,
        "DB slow query".to_string(),
        Some("{\"ms\":450}".to_string()),
        Platform::Android,
        None,
        Some("s1".to_string()),
        Some("t1".to_string()),
        7,
    );
    assert_eq!(b.logs.len(), 1);
    assert!(b.exceptions.is_empty());
    let l = &b.logs[0];
    assert_eq!(l.level, LogLevel::Warn);
    assert_eq!(l.attrs_json.as_deref(), Some("{\"ms\":450}"));
    assert_eq!(l.platform, Platform::Android);
    assert_eq!(l.session_key.as_deref(), Some("s1"));
    assert_eq!(l.trace_id.as_deref(), Some("t1"));
}

#[test]
fn span_method_is_sent_upper_case() {
    let b = span_batch(
        "post",
        "/api/orders".to_string(),
        201,
        142,
        Platform::Web,
        None,
        None,
        None,
        None,
        9,
    );
    assert_eq!(b.api_spans.len(), 1);
    let s = &b.api_spans[0];
    assert_eq!(s.method, "POST");
    assert_eq!(s.route, "/api/orders");
    assert_eq!(s.status, 201);
    assert_eq!(s.duration_ms, 142);
    assert_eq!(s.op.as_deref(), Some("http.client"));
    assert!(s.parent_span_id.is_none() && s.name.is_none());
    let b = span_batch_upper(
        "GET".to_string(),
        "/".to_string(),
        200,
        1,
        Platform::Ios,
        None,
        None,
        None,
        None,
        0,
    );
    assert_eq!(b.api_spans[0].method, "GET");
}

#[test]
fn sessions_get_the_key_given_or_a_fresh_one() {
    assert_eq!(session_key_or_new(Some("abc".to_string())), "abc");
    let k = session_key_or_new(None);
    assert_eq!(k.len(), 32);
    let b = session_batch(k.clone(), Platform::Android, None, Some("Android 14".to_string()), 5);
    assert_eq!(b.sessions.len(), 1);
    assert_eq!(b.sessions[0].session_key, k);
    assert_eq!(b.sessions[0].device_os.as_deref(), Some("Android 14"));
    assert!(b.sessions[0].country.is_none());
    assert_eq!(b.sessions[0].started_at, 5);
}

#[test]
fn base_is_stable_when_given_again() {
    for ep in ["https://x.convex.site/v1/ingest/", "  https://h/p//  ", "", "https://h"] {
        let once = UsermonClient::new(ep, "k");
        let twice = UsermonClient::new(once.ingest_url(), "k");
        assert_eq!(once.ingest_url(), twice.ingest_url());
    }
    let once = UsermonClient::new("https://h /", "k");
    assert_eq!(once.ingest_url(), "https://h ");
    assert_eq!(UsermonClient::new(once.ingest_url(), "k").ingest_url(), "https://h");
}
