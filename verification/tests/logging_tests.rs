use hadron_core::config::LoggingConfig;
use hadron_core::logging::{
    log_quarantine_operation, log_security_event, log_structured_security_event, log_threat_detection,
    security_trace_level,
    ArchiveEntry, AuditEvent, AuditEventType, AuditLogger, AuditResult, EventLogger, EventSeverity, LogRotator,
    QuarantineOperation, SecurityEventSeverity, StructuredEvent, TraceLevel,
};
use hadron_core::types::{DetectionMethod, ThreatInfo, ThreatSeverity, ThreatType};

fn config(path: &str, max_mb: u64, max_files: u32) -> LoggingConfig {
    LoggingConfig {
        log_level: "info".to_string(),
        log_file_path: path.to_string(),
        max_log_file_size_mb: max_mb,
        max_log_files: max_files,
        enable_console_logging: false,
        enable_windows_event_log: false,
        enable_json_logging: true,
    }
}

fn count(stats: &[(String, u64)], t: &str) -> Option<u64> {
    stats.iter().find(|(k, _)| k == t).map(|(_, c)| *c)
}

#[test]
fn test_event_severity_conversion() {
    let security_severity = SecurityEventSeverity::Critical;
    let event_severity = match security_severity {
        SecurityEventSeverity::Critical => EventSeverity::Critical,
        SecurityEventSeverity::High => EventSeverity::High,
        SecurityEventSeverity::Medium => EventSeverity::Medium,
        SecurityEventSeverity::Low => EventSeverity::Low,
    };
    assert!(matches!(event_severity, EventSeverity::Critical));
    assert!(matches!(
        EventSeverity::from_security(SecurityEventSeverity::Critical),
        EventSeverity::Critical
    ));
}

#[test]
fn test_log_rotator_creation() {
    let log_path = "/tmp/hadron_logs/test.log";
    let config = config(log_path, 10, 5);
    let rotator = LogRotator::new(&config, "/tmp/hadron_logs/archive".to_string());
    assert_eq!(rotator.log_file_path(), log_path);
    assert_eq!(rotator.max_file_size_mb(), 10);
    assert_eq!(rotator.max_files(), 5);
    assert_eq!(rotator.archive_path(), "/tmp/hadron_logs/archive");
}

#[test]
fn test_event_logger_creation() {
    let config = config("/tmp/hadron_logs/test.log", 10, 5);
    let event_logger = EventLogger::new(config, "/tmp/hadron_logs/archive".to_string());
    let stats = event_logger.get_event_statistics();
    assert!(stats.is_empty());
    assert!(event_logger.audit_logger().is_enabled());
}

#[test]
fn event_counts_grow_per_type() {
    let mut logger = EventLogger::new(config("/tmp/l.log", 1, 1), "/tmp/a".to_string());
    logger.record_event("test_event");
    logger.record_event("scan_started");
    logger.record_event("test_event");
    let stats = logger.get_event_statistics();
    assert_eq!(count(&stats, "test_event"), Some(2));
    assert_eq!(count(&stats, "scan_started"), Some(1));
    assert_eq!(count(&stats, "other"), None);
    assert_eq!(logger.event_count("test_event"), 2);
    assert_eq!(logger.event_count("other"), 0);
}

#[test]
fn severity_levels_follow_the_event_severity() {
    assert_eq!(security_trace_level(SecurityEventSeverity::Critical), TraceLevel::Error);
    assert_eq!(security_trace_level(SecurityEventSeverity::High), TraceLevel::Warn);
    assert_eq!(security_trace_level(SecurityEventSeverity::Medium), TraceLevel::Info);
    assert_eq!(security_trace_level(SecurityEventSeverity::Low), TraceLevel::Info);
    assert_eq!(EventSeverity::Debug.trace_level(), TraceLevel::Debug);
    assert!(matches!(EventSeverity::from_threat(ThreatSeverity::High), EventSeverity::High));
}

#[test]
fn rotation_names_and_limits() {
    let rotator = LogRotator::new(&config("/var/log/av.log", 2, 3), "/var/log/archive".to_string());
    assert!(!rotator.needs_rotation(2 * 1024 * 1024 - 1));
    assert!(rotator.needs_rotation(2 * 1024 * 1024));
    assert_eq!(LogRotator::rotated_name("av", 1700000000, "log"), "av_1700000000.log");
    assert_eq!(LogRotator::archived_name("av_1.log"), "av_1.log.archived");
    assert_eq!(LogRotator::cleanup_cutoff(10 * 86400, 3), 7 * 86400);
    assert!(LogRotator::is_expired(5, 6));
    assert!(!LogRotator::is_expired(6, 6));
    assert_eq!(rotator.excess_count(5), 2);
    assert_eq!(rotator.excess_count(3), 0);
}

#[test]
fn quarantine_outcomes_are_logged_with_their_level() {
    let id: u128 = 0x0123_4567_89ab_cdef_0123_4567_89ab_cdef;
    let (level, msg, fields) = log_quarantine_operation(QuarantineOperation::Restore, id, "/q/f.bin", None);
    assert_eq!(level, TraceLevel::Info);
    assert_eq!(msg, "QUARANTINE OPERATION: Restore successful for /q/f.bin");
    assert_eq!(
        fields,
        vec![
            ("operation".to_string(), "Restore".to_string()),
            ("quarantine_id".to_string(), "01234567-89ab-cdef-0123-456789abcdef".to_string()),
            ("file_path".to_string(), "/q/f.bin".to_string()),
        ]
    );
    let (level, msg, fields) =
        log_quarantine_operation(QuarantineOperation::Delete, id, "/q/f.bin", Some("denied"));
    assert_eq!(level, TraceLevel::Error);
    assert_eq!(msg, "QUARANTINE OPERATION: Delete failed for /q/f.bin: denied");
    assert_eq!(fields.len(), 4);
    assert_eq!(fields[3], ("error".to_string(), "denied".to_string()));
    let (sev, msg) = QuarantineOperation::Quarantine.outcome_event("/x", None);
    assert!(matches!(sev, EventSeverity::Medium));
    assert_eq!(msg, "Quarantine operation Quarantine successful for /x");
    let (sev, msg) = QuarantineOperation::List.outcome_event("/x", Some("e"));
    assert!(matches!(sev, EventSeverity::High));
    assert_eq!(msg, "Quarantine operation List failed for /x: e");
}

#[test]
fn threat_detection_is_a_warning_naming_the_file() {
    let t = ThreatInfo::new(
        "Evil.Thing".to_string(),
        ThreatType::Trojan,
        ThreatSeverity::High,
        "/home/u/evil.exe".to_string(),
        "a".repeat(64),
        DetectionMethod::Signature,
    )
    .unwrap();
    let (level, msg) = log_threat_detection(&t);
    assert_eq!(level, TraceLevel::Warn);
    assert_eq!(msg, "THREAT DETECTED: Evil.Thing in /home/u/evil.exe");
}

#[test]
fn audit_logger_switch() {
    assert!(AuditLogger::new(true).is_enabled());
    assert!(!AuditLogger::new(false).is_enabled());
}

fn json(text: &str) -> serde_json::Value {
    serde_json::from_str(text).unwrap()
}

#[test]
fn test_structured_event_creation() {
    let event = StructuredEvent::new("test_event", EventSeverity::Medium, "test_source", "Test message");
    assert_eq!(event.event_type, "test_event");
    assert!(matches!(event.severity, EventSeverity::Medium));
    assert_eq!(event.source, "test_source");
    assert_eq!(event.message, "Test message");
    assert!(event.user.is_none());
    assert!(event.details.is_none());
}

#[test]
fn test_structured_event_with_details() {
    let details = json(r#"{"key1": "value1", "key2": 42}"#);
    let event = StructuredEvent::new("test_event", EventSeverity::High, "test_source", "Test message")
        .with_user("test_user")
        .with_details(details.clone())
        .with_correlation_id("corr-123")
        .with_session_id("sess-456");
    assert_eq!(event.user, Some("test_user".to_string()));
    assert_eq!(event.details, Some(details));
    assert_eq!(event.correlation_id, Some("corr-123".to_string()));
    assert_eq!(event.session_id, Some("sess-456".to_string()));
}

#[test]
fn test_structured_event_logging() {
    let config = config("/tmp/hadron_logs/test.log", 10, 5);
    let mut event_logger = EventLogger::new(config, "/tmp/hadron_logs/archive".to_string());
    let event = StructuredEvent::new("test_event", EventSeverity::Medium, "test_source", "Test structured event");
    let (level, message) = event_logger.log_structured_event(&event);
    assert_eq!(level, TraceLevel::Info);
    assert_eq!(message, "STRUCTURED EVENT: Test structured event");
    let stats = event_logger.get_event_statistics();
    assert_eq!(count(&stats, "test_event"), Some(1));
}

#[test]
fn test_audit_event_creation() {
    let audit_event = AuditEvent {
        event_type: AuditEventType::ScanOperation,
        user: "test_user".to_string(),
        timestamp: 1_700_000_000_000,
        resource: "C:\\test\\file.exe".to_string(),
        action: "scan".to_string(),
        result: AuditResult::Success,
        details: Some(json(r#"{"scan_duration": 1500}"#)),
    };
    assert_eq!(audit_event.user, "test_user");
    assert_eq!(audit_event.resource, "C:\\test\\file.exe");
    assert_eq!(audit_event.action, "scan");
    assert!(matches!(audit_event.result, AuditResult::Success));
}

#[test]
fn structured_events_have_fresh_uuid_ids() {
    let a = StructuredEvent::new("t", EventSeverity::Low, "s", "m");
    let b = StructuredEvent::new("t", EventSeverity::Low, "s", "m");
    assert_eq!(a.event_id.len(), 36);
    assert_eq!(a.event_id.chars().filter(|c| *c == '-').count(), 4);
    assert_ne!(a.event_id, b.event_id);
    assert_eq!(a.logged_user(), "system");
    assert_eq!(a.with_user("alice").logged_user(), "alice");
}

#[test]
fn audit_events_are_logged_only_when_enabled() {
    let event = AuditEvent {
        event_type: AuditEventType::PolicyChange,
        user: "admin".to_string(),
        timestamp: 0,
        resource: "policy.toml".to_string(),
        action: "edit".to_string(),
        result: AuditResult::Partial,
        details: None,
    };
    assert_eq!(
        AuditLogger::new(true).log_audit_event(&event),
        Some("AUDIT EVENT: admin performed edit on policy.toml with result Partial".to_string())
    );
    assert_eq!(AuditLogger::new(false).log_audit_event(&event), None);
    let logger = EventLogger::new(config("/tmp/x.log", 1, 1), "/tmp/a".to_string());
    assert!(logger.log_audit_event(&event).is_some());
}

#[test]
fn security_events_are_logged_at_their_level() {
    let (event, level, msg) = log_security_event("port_scan", SecurityEventSeverity::High, "port scan", None);
    assert_eq!(level, TraceLevel::Warn);
    assert_eq!(msg, "SECURITY EVENT: port scan");
    assert_eq!(event.event_type, "port_scan");
    assert_eq!(event.source, "security_monitor");
    assert!(matches!(event.severity, EventSeverity::High));
    assert!(event.details.is_none());
    assert!(event.timestamp > 0);
    let (_, level, _) = log_security_event("x", SecurityEventSeverity::Critical, "x", None);
    assert_eq!(level, TraceLevel::Error);
}

fn details() -> serde_json::Value {
    let mut m = serde_json::Map::new();
    m.insert("source_ip".to_string(), serde_json::Value::String("192.168.1.100".to_string()));
    m.insert("user_agent".to_string(), serde_json::Value::String("TestAgent/1.0".to_string()));
    serde_json::Value::Object(m)
}

#[test]
fn test_security_event_logging_compatibility() {
    let mut event_logger = EventLogger::new(config("/tmp/hadron_logs/compat.log", 10, 5), "/tmp/hadron_logs/archive".to_string());
    let (event, level, _) = log_security_event(
        "authentication_failure",
        SecurityEventSeverity::High,
        "Failed login attempt detected",
        Some(details()),
    );
    assert_eq!(level, TraceLevel::Warn);
    assert_eq!(event.details, Some(details()));
    let (event, _, _) = log_structured_security_event(
        &mut event_logger,
        "authentication_success",
        EventSeverity::Medium,
        "User successfully authenticated",
        Some("admin"),
        Some(details()),
    );
    assert_eq!(event.user, Some("admin".to_string()));
    assert_eq!(count(&event_logger.get_event_statistics(), "authentication_success"), Some(1));
}

#[test]
fn test_multiple_event_types_statistics() {
    let mut event_logger = EventLogger::new(config("/tmp/hadron_logs/multi.log", 10, 5), "/tmp/hadron_logs/archive".to_string());
    for i in 0..3 {
        let event = StructuredEvent::new(
            "repeated_event",
            EventSeverity::Medium,
            "test_source",
            &format!("Repeated event number {}", i),
        );
        event_logger.log_structured_event(&event);
    }
    let event_types = ["event_a", "event_b", "event_c"];
    for event_type in &event_types {
        let event = StructuredEvent::new(
            event_type,
            EventSeverity::Low,
            "test_source",
            &format!("Event of type {}", event_type),
        );
        event_logger.log_structured_event(&event);
    }
    let stats = event_logger.get_event_statistics();
    assert_eq!(count(&stats, "repeated_event"), Some(3));
    for event_type in &event_types {
        assert_eq!(count(&stats, event_type), Some(1));
    }
    assert_eq!(stats.len(), 4);
}

#[test]
fn test_log_cleanup() {
    let config = config("/tmp/hadron_cleanup/test.log", 10, 2);
    let rotator = LogRotator::new(&config, "/tmp/hadron_cleanup/archive".to_string());
    let entries = vec![
        ArchiveEntry { name: "old.log.archived".to_string(), is_file: true, created_secs: Some(100) },
        ArchiveEntry { name: "sub".to_string(), is_file: false, created_secs: Some(100) },
    ];
    let removed = rotator.cleanup_old_logs(&entries, 1_000, 0);
    assert_eq!(removed, vec!["/tmp/hadron_cleanup/archive/old.log.archived".to_string()]);
    assert!(rotator.cleanup_old_logs(&[], 1_000, 0).is_empty());
}

#[test]
fn test_structured_event_logging_comprehensive() {
    let mut event_logger = EventLogger::new(config("/tmp/hadron_logs/comp.log", 10, 5), "/tmp/hadron_logs/archive".to_string());
    let severities = [
        EventSeverity::Debug,
        EventSeverity::Low,
        EventSeverity::Medium,
        EventSeverity::High,
        EventSeverity::Critical,
    ];
    for (i, severity) in severities.iter().enumerate() {
        let event = StructuredEvent::new(
            &format!("test_event_{}", i),
            *severity,
            "test_source",
            &format!("Test message for severity {:?}", severity),
        )
        .with_user("test_user")
        .with_correlation_id(&format!("corr-{}", i))
        .with_session_id(&format!("sess-{}", i));
        let (_, message) = event_logger.log_structured_event(&event);
        assert!(message.starts_with("STRUCTURED EVENT: Test message for severity"));
    }
    let stats = event_logger.get_event_statistics();
    assert_eq!(stats.len(), 5);
    for i in 0..5 {
        assert_eq!(count(&stats, &format!("test_event_{}", i)), Some(1));
    }
}

#[test]
fn test_audit_event_logging() {
    let event_logger = EventLogger::new(config("/tmp/hadron_logs/audit.log", 10, 5), "/tmp/hadron_logs/archive".to_string());
    let audit_event = AuditEvent {
        event_type: AuditEventType::ScanOperation,
        user: "admin".to_string(),
        timestamp: 1_700_000_000_000,
        resource: "C:\\test\\file.exe".to_string(),
        action: "scan".to_string(),
        result: AuditResult::Success,
        details: Some(json(r#"{"scan_duration": 1500, "threats_found": 0}"#)),
    };
    let message = event_logger.log_audit_event(&audit_event);
    assert_eq!(
        message,
        Some("AUDIT EVENT: admin performed scan on C:\\test\\file.exe with result Success".to_string())
    );
}

#[test]
fn test_log_rotation_functionality() {
    let event_logger = EventLogger::new(config("/tmp/hadron_logs/rot.log", 10, 5), "/tmp/hadron_logs/archive".to_string());
    let entries = vec![
        ArchiveEntry { name: "a.log".to_string(), is_file: true, created_secs: Some(10) },
        ArchiveEntry { name: "b.txt".to_string(), is_file: true, created_secs: Some(10) },
    ];
    let renames = event_logger.archive_logs(&entries);
    assert_eq!(
        renames,
        vec![("/tmp/hadron_logs/archive/a.log".to_string(), "/tmp/hadron_logs/archive/a.log.archived".to_string())]
    );
    let removed = event_logger.cleanup_old_logs(&entries, 40 * 86_400, 30);
    assert_eq!(removed.len(), 2);
    assert!(event_logger.cleanup_old_logs(&entries, 30 * 86_400, 30).is_empty());
}

#[test]
fn test_event_with_complex_details() {
    let mut event_logger = EventLogger::new(config("/tmp/hadron_logs/complex.log", 10, 5), "/tmp/hadron_logs/archive".to_string());
    let complex_details = json(
        r#"{"scan_results": {"files_scanned": 1000, "threats_found": 5, "scan_duration_ms": 30000,
            "threats": [{"name": "Trojan.Win32.Test", "path": "C:\\malware\\test1.exe", "severity": "high"},
                        {"name": "Adware.Generic", "path": "C:\\temp\\suspicious.dll", "severity": "medium"}]},
            "system_info": {"os": "Windows 10", "cpu_usage": 25.5, "memory_usage": 1024}}"#,
    );
    let event = StructuredEvent::new(
        "comprehensive_scan_completed",
        EventSeverity::High,
        "scan_engine",
        "Comprehensive system scan completed with threats detected",
    )
    .with_user("system")
    .with_details(complex_details.clone())
    .with_correlation_id("scan-12345")
    .with_session_id("session-67890");
    assert_eq!(event.details, Some(complex_details));
    event_logger.log_structured_event(&event);
    let stats = event_logger.get_event_statistics();
    assert_eq!(count(&stats, "comprehensive_scan_completed"), Some(1));
}
