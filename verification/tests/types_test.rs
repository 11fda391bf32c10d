use usermon::{IngestBatch, IssueLevel, LogLevel, Platform, RumEventType};

#[test]
fn parse_errors_name_the_text() {
    assert_eq!(Platform::parse_name("desktop"), Err("unknown platform: desktop".to_string()));
    assert_eq!(LogLevel::parse_name("verbose"), Err("unknown log level: verbose".to_string()));
    assert_eq!(
        IssueLevel::parse_name("emergency"),
        Err("unknown issue level: emergency".to_string())
    );
}

#[test]
fn parsing_is_case_sensitive_and_exact() {
    assert!(Platform::parse_name("Web").is_err());
    assert!(Platform::parse_name(" web").is_err());
    assert!(Platform::parse_name("").is_err());
}

#[test]
fn wire_names_round_trip() {
    for p in [Platform::Web, Platform::Android, Platform::Ios] {
        assert_eq!(Platform::parse_name(p.as_str()), Ok(p));
    }
    for l in [LogLevel::Debug, LogLevel::Info, LogLevel::Warn, LogLevel::Error, LogLevel::Fatal] {
        assert_eq!(LogLevel::parse_name(l.as_str()), Ok(l));
        assert_eq!(l.to_string(), l.as_str());
    }
    for l in [IssueLevel::Info, IssueLevel::Warning, IssueLevel::Error, IssueLevel::Fatal] {
        assert_eq!(IssueLevel::parse_name(l.as_str()), Ok(l));
        assert_eq!(l.to_string(), l.as_str());
    }
    assert_eq!(LogLevel::Warn.as_str(), "warn");
    assert_eq!(IssueLevel::Warning.as_str(), "warning");
}

#[test]
fn rum_event_type_names() {
    assert_eq!(RumEventType::Vital.as_str(), "vital");
    assert_eq!(RumEventType::PageView.as_str(), "page_view");
    assert_eq!(RumEventType::ScreenView.as_str(), "screen_view");
    assert_eq!(RumEventType::Custom.as_str(), "custom");
}

#[test]
fn default_batch_is_empty() {
    let b = IngestBatch::default();
    assert!(b.sessions.is_empty());
    assert!(b.rum_events.is_empty());
    assert!(b.api_spans.is_empty());
    assert!(b.exceptions.is_empty());
    assert!(b.logs.is_empty());
}
