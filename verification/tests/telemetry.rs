use codex_shim::telemetry::{
    level_to_severity, log_record, telemetry_settings, webview_level, webview_payload, AttributeValue,
    EventMetadata, EventVisitor, Level, LogLevel, Severity, TelemetryError,
};

fn metadata(level: Level) -> EventMetadata {
    EventMetadata {
        level,
        target: "target".to_string(),
        module: Some("jan::shim".to_string()),
        file: Some("shim.rs".to_string()),
        line: Some(12),
    }
}

fn with_message(text: &str) -> EventVisitor {
    let mut visitor = EventVisitor::default();
    visitor.record_str("message", text);
    visitor
}

#[test]
fn every_level_has_its_severity() {
    assert_eq!(level_to_severity(&Level::Trace), Some(Severity::Trace));
    assert_eq!(level_to_severity(&Level::Debug), Some(Severity::Debug));
    assert_eq!(level_to_severity(&Level::Info), Some(Severity::Info));
    assert_eq!(level_to_severity(&Level::Warn), Some(Severity::Warn));
    assert_eq!(level_to_severity(&Level::Error), Some(Severity::Error));
    assert_eq!(webview_level(&Level::Trace), LogLevel::Trace);
    assert_eq!(webview_level(&Level::Debug), LogLevel::Debug);
    assert_eq!(webview_level(&Level::Info), LogLevel::Info);
    assert_eq!(webview_level(&Level::Warn), LogLevel::Warn);
    assert_eq!(webview_level(&Level::Error), LogLevel::Error);
}

#[test]
fn severities_are_named_in_upper_case() {
    for (level, name) in [
        (Level::Trace, "TRACE"),
        (Level::Debug, "DEBUG"),
        (Level::Info, "INFO"),
        (Level::Warn, "WARN"),
        (Level::Error, "ERROR"),
    ] {
        let record = log_record(metadata(level), with_message("m"));
        assert_eq!(record.severity_text.as_deref(), Some(name));
    }
}

#[test]
fn the_first_debugged_message_is_kept() {
    let mut visitor = EventVisitor::default();
    visitor.record_debug("other", "o".to_string());
    assert_eq!(visitor.message, None);
    visitor.record_debug("message", "a".to_string());
    visitor.record_debug("message", "b".to_string());
    assert_eq!(visitor.message.as_deref(), Some("a"));
}

#[test]
fn a_plain_message_takes_the_place_of_any_other() {
    let mut visitor = EventVisitor::default();
    visitor.record_debug("message", "a".to_string());
    visitor.record_str("message", "b");
    visitor.record_debug("message", "c".to_string());
    visitor.record_str("other", "d");
    assert_eq!(visitor.message.as_deref(), Some("b"));
    visitor.record_str("message", "e");
    assert_eq!(visitor.message.as_deref(), Some("e"));
}

#[test]
fn the_web_view_gets_events_with_a_message() {
    let payload = webview_payload(&Level::Warn, with_message("m")).unwrap();
    assert_eq!(payload.message, "m");
    assert_eq!(payload.level, LogLevel::Warn);
    assert!(webview_payload(&Level::Warn, EventVisitor::default()).is_none());
}

#[test]
fn records_say_where_events_come_from() {
    let record = log_record(metadata(Level::Error), with_message("m"));
    assert_eq!(record.body, "m");
    assert_eq!(record.severity, Some(Severity::Error));
    let keys: Vec<&str> = record.attributes.iter().map(|a| a.key).collect();
    assert_eq!(keys, vec!["code.namespace", "code.filepath", "code.lineno", "log.target"]);
    assert!(matches!(&record.attributes[0].value, AttributeValue::Text(t) if t == "jan::shim"));
    assert!(matches!(&record.attributes[1].value, AttributeValue::Text(t) if t == "shim.rs"));
    assert!(matches!(&record.attributes[2].value, AttributeValue::Integer(12)));
    assert!(matches!(&record.attributes[3].value, AttributeValue::Text(t) if t == "target"));
}

#[test]
fn records_fall_back_to_the_target() {
    let bare = EventMetadata { level: Level::Info, target: "t".to_string(), module: None, file: None, line: None };
    let record = log_record(bare, EventVisitor::default());
    assert_eq!(record.body, "t");
    assert_eq!(record.attributes.len(), 1);
    assert_eq!(record.attributes[0].key, "log.target");
}

#[test]
fn settings_have_their_defaults() {
    let settings = telemetry_settings(None, "1.2.3");
    assert_eq!(settings.endpoint, "http://127.0.0.1:4317");
    assert_eq!(settings.timeout_secs, 5);
    assert_eq!(
        settings.resource,
        vec![
            ("service.name".to_string(), "jan-desktop".to_string()),
            ("service.namespace".to_string(), "jan".to_string()),
            ("service.version".to_string(), "1.2.3".to_string()),
        ]
    );
    assert_eq!(settings.logger_name, "jan-desktop");
    assert_eq!(settings.log_folder, "logs");
    assert_eq!(settings.log_file, "app.log");
    assert_eq!(settings.default_filter, "info");
    assert_eq!(telemetry_settings(Some("http://c:1".to_string()), "v").endpoint, "http://c:1");
}

#[test]
fn errors_say_what_failed() {
    let cause = || "why".to_string();
    assert_eq!(TelemetryError::LogTracer(cause()).message(), "failed to install log tracer: why");
    assert_eq!(TelemetryError::Subscriber(cause()).message(), "failed to install tracing subscriber: why");
    assert_eq!(TelemetryError::Io(cause()).message(), "failed to prepare telemetry output directory: why");
    assert_eq!(TelemetryError::Trace(cause()).message(), "failed to configure OTLP exporter: why");
    assert_eq!(TelemetryError::Log(cause()).message(), "failed to configure OTLP log exporter: why");
}
