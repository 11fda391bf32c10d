use usermon::{IssueLevel, LogLevel, Platform};

#[test]
fn test_platform_parsing_and_display() {
    assert_eq!("web".parse::<Platform>().unwrap().to_string(), "web");
    assert_eq!("android".parse::<Platform>().unwrap().to_string(), "android");
    assert_eq!("ios".parse::<Platform>().unwrap().to_string(), "ios");
    assert!("desktop".parse::<Platform>().is_err());
}

#[test]
fn test_log_level_parsing() {
    assert!(matches!("debug".parse::<LogLevel>().unwrap(), LogLevel::Debug));
    assert!(matches!("info".parse::<LogLevel>().unwrap(), LogLevel::Info));
    assert!(matches!("warn".parse::<LogLevel>().unwrap(), LogLevel::Warn));
    assert!(matches!("warning".parse::<LogLevel>().unwrap(), LogLevel::Warn));
    assert!(matches!("error".parse::<LogLevel>().unwrap(), LogLevel::Error));
    assert!(matches!("fatal".parse::<LogLevel>().unwrap(), LogLevel::Fatal));
    assert!("verbose".parse::<LogLevel>().is_err());
}

#[test]
fn test_issue_level_parsing() {
    assert!(matches!("info".parse::<IssueLevel>().unwrap(), IssueLevel::Info));
    assert!(matches!("warning".parse::<IssueLevel>().unwrap(), IssueLevel::Warning));
    assert!(matches!("warn".parse::<IssueLevel>().unwrap(), IssueLevel::Warning));
    assert!(matches!("error".parse::<IssueLevel>().unwrap(), IssueLevel::Error));
    assert!(matches!("fatal".parse::<IssueLevel>().unwrap(), IssueLevel::Fatal));
    assert!("emergency".parse::<IssueLevel>().is_err());
}

#[test]
fn test_now_ms_and_hex_id() {
    let ts = usermon::client::now_ms();
    assert!(ts > 1_700_000_000_000, "Timestamp should be valid epoch ms");

    let id16 = usermon::client::hex_id(16);
    assert_eq!(id16.len(), 16);
    assert!(id16.chars().all(|c| c.is_ascii_hexdigit()));

    let id32 = usermon::client::hex_id(32);
    assert_eq!(id32.len(), 32);
    assert!(id32.chars().all(|c| c.is_ascii_hexdigit()));
}
