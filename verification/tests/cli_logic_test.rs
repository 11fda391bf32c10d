use usermon::cli::{
    append_line, error_json, make_client, ConnectionSources, LogPipe, LogTemplate,
    MISSING_KEY_ERROR,
};
use usermon::project::ProjectConfig;
use usermon::{LogLevel, Platform};

fn empty_sources() -> ConnectionSources {
    ConnectionSources {
        flag_endpoint: None,
        flag_ingest_url: None,
        flag_ingest_key: None,
        env_endpoint: None,
        env_ingest_url: None,
        env_ingest_key: None,
        project: None,
    }
}

#[test]
fn missing_key_is_refused() {
    let e = make_client(&empty_sources()).unwrap_err();
    assert_eq!(e, MISSING_KEY_ERROR);
    assert!(e.contains("USERMON_INGEST_KEY"));
}

#[test]
fn sources_are_taken_in_order() {
    let mut s = empty_sources();
    s.project = Some(ProjectConfig::linked(None, None, Some("um_proj".to_string()), Some("https://proj".to_string())));
    let c = make_client(&s).unwrap();
    assert_eq!(c.ingest_url(), "https://proj");
    assert_eq!(c.ingest_key(), "um_proj");
    s.env_ingest_url = Some("https://env-url".to_string());
    s.env_ingest_key = Some("um_env".to_string());
    let c = make_client(&s).unwrap();
    assert_eq!(c.ingest_url(), "https://env-url");
    assert_eq!(c.ingest_key(), "um_env");
    s.env_endpoint = Some("https://env-endpoint/v1/ingest".to_string());
    assert_eq!(make_client(&s).unwrap().ingest_url(), "https://env-endpoint");
    s.flag_ingest_url = Some("https://flag-url".to_string());
    assert_eq!(make_client(&s).unwrap().ingest_url(), "https://flag-url");
    s.flag_endpoint = Some("https://flag-endpoint".to_string());
    s.flag_ingest_key = Some("um_flag".to_string());
    let c = make_client(&s).unwrap();
    assert_eq!(c.ingest_url(), "https://flag-endpoint");
    assert_eq!(c.ingest_key(), "um_flag");
    let mut s = empty_sources();
    s.env_ingest_key = Some("k".to_string());
    assert_eq!(make_client(&s).unwrap().ingest_url(), "https://ingest.usermon.dev");
}

#[test]
fn errors_in_json_mode() {
    assert_eq!(error_json("boom"), "{\"error\":\"boom\"}");
}

#[test]
fn lines_are_joined_with_newlines() {
    let mut out = String::new();
    append_line(&mut out, "a");
    append_line(&mut out, "");
    assert_eq!(out, "a\n\n");
}

fn template() -> LogTemplate {
    LogTemplate {
        level: LogLevel::Info,
        platform: Platform::Web,
        release: Some("2.1.0".to_string()),
        session_key: None,
    }
}

#[test]
fn pipe_sends_full_batches_and_the_rest() {
    let t = template();
    let mut pipe = LogPipe::new();
    let mut batches = Vec::new();
    for i in 0..120u64 {
        if let Some(b) = pipe.push_line(format!("line {i}"), &t, i) {
            batches.push(b);
        }
        if i % 7 == 0 {
            assert!(pipe.push_line("   \t".to_string(), &t, i).is_none());
        }
    }
    assert_eq!(batches.len(), 2);
    assert_eq!(pipe.sent(), 100);
    let (last, count) = pipe.finish();
    let last = last.unwrap();
    assert_eq!(count, 120);
    assert_eq!(last.logs.len(), 20);
    assert_eq!(batches[0].logs.len(), 50);
    assert_eq!(batches[0].logs[0].message, "line 0");
    assert_eq!(batches[1].logs[49].message, "line 99");
    assert_eq!(last.logs[19].message, "line 119");
    assert_eq!(last.logs[0].timestamp, 100);
    assert_eq!(last.logs[0].release.as_deref(), Some("2.1.0"));
    assert!(last.logs[0].attrs_json.is_none() && last.logs[0].trace_id.is_none());
}

#[test]
fn pipe_with_only_blank_lines_sends_nothing() {
    let t = template();
    let mut pipe = LogPipe::new();
    assert!(pipe.push_line(String::new(), &t, 0).is_none());
    assert!(pipe.push_line(" \u{3000}".to_string(), &t, 0).is_none());
    let (last, count) = pipe.finish();
    assert!(last.is_none());
    assert_eq!(count, 0);
}
