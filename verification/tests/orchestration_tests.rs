use hadron_core::config::{AntivirusConfig, ConfigurationManager, LoggingConfig};
use hadron_core::email_scanner::{EmailAction, EmailAttachment, EmailScanConfig, EmailScannerImpl};
use hadron_core::error::{AntivirusError, ConfigError, EmailScanError, ScanEngineError};
use hadron_core::file_utils::FileScanner;
use hadron_core::logging::{
    already_initialized, log_scan_event, log_structured_quarantine_event,
    log_structured_scan_event, log_structured_security_event, log_structured_threat_event,
    logging_plan, ArchiveEntry, EventLogger, EventSeverity, LogRotator, QuarantineOperation,
    ScanEvent, ScanEventType, TraceLevel,
};
use hadron_core::mapi_integration::{EmailMonitor, MapiIntegration, OutlookConfig};
use hadron_core::pe_analyzer::{byte_counts, AdvancedPEAnalyzer};
use hadron_core::removable_media::{deepest_first, RemovableMediaDetector};
use hadron_core::types::{DetectionMethod, ScanResult, ThreatInfo, ThreatSeverity, ThreatType};

fn log_config(path: &str, max_files: u32) -> LoggingConfig {
    LoggingConfig {
        log_level: "debug".to_string(),
        log_file_path: path.to_string(),
        max_log_file_size_mb: 10,
        max_log_files: max_files,
        enable_console_logging: true,
        enable_windows_event_log: false,
        enable_json_logging: false,
    }
}

fn entry(name: &str, is_file: bool, created: Option<u64>) -> ArchiveEntry {
    ArchiveEntry { name: name.to_string(), is_file, created_secs: created }
}

fn count(stats: &[(String, u64)], t: &str) -> Option<u64> {
    stats.iter().find(|(k, _)| k == t).map(|(_, c)| *c)
}

#[test]
fn test_configuration_manager_creation() {
    let mut manager = ConfigurationManager::new(AntivirusConfig::default(), "/etc/av/config.toml".to_string());
    assert!(manager.get_config().validate().is_ok());
    assert!(manager.validate_config().is_ok());
    assert_eq!(manager.config_path(), "/etc/av/config.toml");
    let mut bad = AntivirusConfig::default();
    bad.logging.max_log_files = 0;
    manager.update_config(bad);
    assert_eq!(
        manager.validate_config(),
        Err(ConfigError::ValidationFailed("max_log_files must be greater than 0".to_string()))
    );
    assert_eq!(manager.get_config().logging.max_log_files, 0);
}

#[test]
fn rotator_archives_only_log_files() {
    let rotator = LogRotator::new(&log_config("/var/log/av/antivirus.log", 3), "/var/log/av/archive".to_string());
    let plan = rotator.archive_old_logs(&[
        entry("a.log", true, Some(1)),
        entry("b.txt", true, Some(1)),
        entry("dir.log", false, None),
        entry(".log", true, Some(1)),
        entry("c.log", true, None),
    ]);
    assert_eq!(
        plan,
        vec![
            ("/var/log/av/archive/a.log".to_string(), "/var/log/av/archive/a.log.archived".to_string()),
            ("/var/log/av/archive/c.log".to_string(), "/var/log/av/archive/c.log.archived".to_string()),
        ]
    );
}

#[test]
fn rotator_cleanup_removes_files_older_than_cutoff() {
    let rotator = LogRotator::new(&log_config("/l/av.log", 3), "/l/archive".to_string());
    let now = 10 * 86400;
    let removed = rotator.cleanup_old_logs(
        &[
            entry("old", true, Some(86400)),
            entry("edge", true, Some(3 * 86400)),
            entry("new", true, Some(9 * 86400)),
            entry("unknown", true, None),
            entry("dir", false, Some(0)),
        ],
        now,
        7,
    );
    assert_eq!(removed, vec!["/l/archive/old".to_string()]);
}

#[test]
fn rotator_keeps_the_newest_files() {
    let rotator = LogRotator::new(&log_config("/l/av.log", 2), "/l/archive".to_string());
    let removed = rotator.cleanup_excess_files(&[
        entry("a", true, Some(5)),
        entry("b", true, Some(9)),
        entry("sub", false, Some(100)),
        entry("c", true, Some(7)),
        entry("d", true, Some(5)),
        entry("e", true, None),
    ]);
    assert_eq!(
        removed,
        vec!["/l/archive/a".to_string(), "/l/archive/d".to_string(), "/l/archive/e".to_string()]
    );
    let few = rotator.cleanup_excess_files(&[entry("a", true, Some(1))]);
    assert!(few.is_empty());
}

#[test]
fn rotator_names_the_rotated_file() {
    let rotator = LogRotator::new(&log_config("/l/antivirus.log", 2), "/l/archive".to_string());
    assert_eq!(rotator.rotation_target(1700000000), "/l/archive/antivirus_1700000000.log");
    let bare = LogRotator::new(&log_config("/l/events", 2), "/l/archive".to_string());
    assert_eq!(bare.rotation_target(5), "/l/archive/events_5.log");
    let logger = EventLogger::new(log_config("/l/antivirus.log", 2), "/l/archive".to_string());
    assert_eq!(logger.archive_logs(&[entry("x.log", true, None)]).len(), 1);
    assert_eq!(logger.cleanup_old_logs(&[entry("x", true, Some(0))], 86400, 0).len(), 1);
}

fn threat() -> ThreatInfo {
    ThreatInfo::new(
        "Trojan.X".to_string(),
        ThreatType::Trojan,
        ThreatSeverity::Critical,
        "/tmp/x.exe".to_string(),
        "a".repeat(64),
        DetectionMethod::Heuristic,
    )
    .unwrap()
}

#[test]
fn structured_security_event_is_counted_and_carries_the_user() {
    let mut logger = EventLogger::new(log_config("/l/av.log", 2), "/l/archive".to_string());
    let (event, level, msg) = log_structured_security_event(
        &mut logger,
        "login",
        EventSeverity::High,
        "failed login",
        Some("alice"),
        Some(serde_json::Value::Bool(true)),
    );
    assert_eq!(event.source, "security_monitor");
    assert_eq!(event.user.as_deref(), Some("alice"));
    assert_eq!(event.details, Some(serde_json::Value::Bool(true)));
    assert!(matches!(level, TraceLevel::Warn));
    assert_eq!(msg, "STRUCTURED EVENT: failed login");
    assert_eq!(count(&logger.get_event_statistics(), "login"), Some(1));
}

#[test]
fn structured_scan_event_details_hold_the_scan_identifier() {
    let mut logger = EventLogger::new(log_config("/l/av.log", 2), "/l/archive".to_string());
    let id: u128 = 0x0123_4567_89ab_cdef_0011_2233_4455_6677;
    let (event, level, _) = log_structured_scan_event(&mut logger, id, "scan_started", "go", None);
    assert!(matches!(level, TraceLevel::Info));
    let details = event.details.unwrap();
    assert_eq!(details["scan_id"], "01234567-89ab-cdef-0011-223344556677");
    assert!(details["additional_details"].is_null());
}

#[test]
fn structured_threat_event_uses_the_threat() {
    let mut logger = EventLogger::new(log_config("/l/av.log", 2), "/l/archive".to_string());
    let t = threat();
    let (event, level, msg) = log_structured_threat_event(&mut logger, &t);
    assert!(matches!(event.severity, EventSeverity::Critical));
    assert!(matches!(level, TraceLevel::Error));
    assert_eq!(msg, "STRUCTURED EVENT: Threat detected: Trojan.X in /tmp/x.exe");
    let d = event.details.unwrap();
    assert_eq!(d["threat_type"], "Trojan");
    assert_eq!(d["detection_method"], "Heuristic");
    assert_eq!(d["threat_name"], "Trojan.X");
    assert_eq!(count(&logger.get_event_statistics(), "threat_detection"), Some(1));
}

#[test]
fn structured_quarantine_event_reports_the_outcome() {
    let mut logger = EventLogger::new(log_config("/l/av.log", 2), "/l/archive".to_string());
    let (ok, _, _) = log_structured_quarantine_event(&mut logger, QuarantineOperation::Restore, 1, "/tmp/f", None);
    assert_eq!(ok.message, "Quarantine operation Restore successful for /tmp/f");
    assert_eq!(ok.details.as_ref().unwrap()["success"], true);
    assert_eq!(ok.details.as_ref().unwrap()["quarantine_id"], "00000000-0000-0000-0000-000000000001");
    let (bad, level, _) = log_structured_quarantine_event(&mut logger, QuarantineOperation::Delete, 2, "/tmp/g", Some("denied"));
    assert_eq!(bad.message, "Quarantine operation Delete failed for /tmp/g: denied");
    assert!(matches!(level, TraceLevel::Warn));
    assert_eq!(bad.details.as_ref().unwrap()["error"], "denied");
    assert_eq!(count(&logger.get_event_statistics(), "quarantine_operation"), Some(2));
}

#[test]
fn scan_event_and_logging_plan() {
    let ev = ScanEvent { event_type: ScanEventType::ScanStarted, message: "begin".to_string(), timestamp: 0, details: None };
    let (level, msg) = log_scan_event(1, &ev);
    assert!(matches!(level, TraceLevel::Info));
    assert_eq!(msg, "SCAN EVENT: begin");
    let plan = logging_plan(&log_config("/var/log/av/antivirus.log", 2));
    assert_eq!(plan.file_name, "antivirus.log");
    assert!(plan.console);
    assert!(!plan.json_file);
    assert_eq!(plan.level, "debug");
    assert_eq!(logging_plan(&log_config("/", 2)).file_name, "antivirus.log");
    assert!(already_initialized("a global default trace dispatcher has already been set"));
    assert!(!already_initialized("permission denied"));
}

#[test]
fn byte_frequencies() {
    let c = byte_counts(&[1, 2, 2, 255]);
    assert_eq!(c.len(), 256);
    assert_eq!(c[2], 2);
    assert_eq!(c[255], 1);
    assert_eq!(c[0], 0);
    let a = AdvancedPEAnalyzer::new();
    assert!(a.section_byte_counts(&[0u8; 10], 8, 4).is_none());
    assert_eq!(a.section_byte_counts(&[7u8; 10], 2, 4).unwrap()[7], 4);
}

#[test]
fn wipe_orders_paths_deepest_first() {
    let paths = vec!["/m/a".to_string(), "/m/x/y/z".to_string(), "/m/b".to_string(), "/m/x/y".to_string()];
    assert_eq!(
        deepest_first(&paths),
        vec!["/m/x/y/z".to_string(), "/m/x/y".to_string(), "/m/a".to_string(), "/m/b".to_string()]
    );
    let d = RemovableMediaDetector::new();
    let dirs = vec!["/m".to_string(), "/m/x".to_string(), "/m/x/y".to_string()];
    assert_eq!(d.removable_directories(&dirs, "/m/"), vec!["/m/x/y".to_string(), "/m/x".to_string()]);
}

#[test]
fn test_email_monitor_lifecycle() {
    let mapi = MapiIntegration::new("/tmp/av".to_string());
    let mut monitor = EmailMonitor::new(mapi);
    assert!(!monitor.is_running());
    assert!(monitor.messages_to_scan_at(5).unwrap().is_empty());
    monitor.start_monitoring().unwrap();
    assert!(monitor.is_running());
    assert!(monitor.mapi().has_session());
    let msgs = monitor.messages_to_scan_at(5).unwrap();
    assert_eq!(msgs.len(), 1);
    assert_eq!(msgs[0].entry_id, "msg_001");
    assert_eq!(msgs[0].received_time, 5);
    monitor.stop_monitoring().unwrap();
    assert!(!monitor.is_running());
    assert!(!monitor.mapi().has_session());
}

#[test]
fn email_monitor_respects_its_settings() {
    let mut off = OutlookConfig::with_temp_directory("/tmp/av".to_string());
    off.enabled = false;
    let mut m = EmailMonitor::with_config(MapiIntegration::new("/tmp/av".to_string()), off);
    assert!(m.start_monitoring().is_ok());
    assert!(!m.is_running());
    let mut disabled = OutlookConfig::with_temp_directory("/tmp/av".to_string());
    disabled.enabled = false;
    let mut m2 = EmailMonitor::new(MapiIntegration::with_config(disabled));
    assert_eq!(
        m2.start_monitoring(),
        Err(AntivirusError::EmailScanning(EmailScanError::MapiInitializationFailed(
            "MAPI integration disabled".to_string()
        )))
    );
    let mut quiet = OutlookConfig::with_temp_directory("/tmp/av".to_string());
    quiet.scan_on_receive = false;
    let mut m3 = EmailMonitor::with_config(MapiIntegration::new("/tmp/av".to_string()), quiet);
    m3.start_monitoring().unwrap();
    assert!(m3.messages_to_scan_at(1).unwrap().is_empty());
}

#[test]
fn test_message_scanning() {
    let mut monitor = EmailMonitor::new(MapiIntegration::new("/tmp/av".to_string()));
    monitor.start_monitoring().unwrap();
    let results = monitor.messages_to_scan_at(1).unwrap();
    assert!(!results.is_empty());
    monitor.stop_monitoring().unwrap();
}

#[test]
fn mapi_messages_need_a_session() {
    let mut mapi = MapiIntegration::new("/tmp/av".to_string());
    assert!(mapi.get_new_messages().is_err());
    assert!(mapi.register_message_notifications().is_err());
    mapi.initialize_session(None).unwrap();
    let msgs = mapi.get_new_messages_at(9).unwrap();
    assert_eq!(msgs[0].recipient_emails, vec!["user@company.com".to_string()]);
    let atts = mapi.extract_message_attachments(&msgs[0], vec!["/tmp/av/9_attachment_0.bin".to_string()]).unwrap();
    assert_eq!(atts.len(), 1);
    assert_eq!(atts[0].filename, "attachment_0.bin");
    assert_eq!(atts[0].recipient, "user@company.com");
    assert!(mapi.register_message_notifications().is_ok());
    assert!(mapi.unregister_message_notifications().is_ok());
    assert_eq!(mapi.temp_filename_at("a", -5), "/tmp/av/-5_a");
    assert!(mapi.generate_temp_filename("r:x").starts_with("/tmp/av/"));
    assert!(mapi.generate_temp_filename("r:x").ends_with("_r_x"));
}

fn attachment(name: &str, size: u64) -> EmailAttachment {
    EmailAttachment {
        filename: name.to_string(),
        content_type: "application/octet-stream".to_string(),
        size,
        temp_path: format!("/tmp/{}", name),
        email_subject: "Test".to_string(),
        sender: "test@example.com".to_string(),
        recipient: "user@example.com".to_string(),
    }
}

#[test]
fn test_scan_attachment() {
    let scanner = EmailScannerImpl::new();
    let mut a = attachment("test.txt", 100);
    a.content_type = "text/plain".to_string();
    a.email_subject = "Test Email".to_string();
    assert!(scanner.unscanned_result(&a, 1, 0).is_none());
    let result = scanner.scanned_result(&a, ScanResult::started_at(1, 0), 0);
    assert!(matches!(result.action_taken, EmailAction::Allow));
    assert!(result.scan_result.threats_found.is_empty());
}

#[test]
fn attachment_results_before_and_after_the_engine() {
    let scanner = EmailScannerImpl::new();
    let small = attachment("doc.pdf", 10);
    assert!(scanner.unscanned_result(&small, 1, 3).is_none());
    let scanned = scanner.scanned_result(&small, ScanResult::started_at(1, 0), 3);
    assert_eq!(scanned.action_taken, EmailAction::Allow);
    assert_eq!(scanned.scan_duration_ms, 3);
    let big = attachment("big.pdf", 51 * 1024 * 1024);
    let r = scanner.unscanned_result(&big, 2, 0).unwrap();
    assert_eq!(r.action_taken, EmailAction::Warn);
    assert_eq!(r.scan_result.scan_id, 2);
    let mut cfg = EmailScanConfig::default();
    cfg.enabled = false;
    let off = EmailScannerImpl::with_config(cfg);
    assert_eq!(off.unscanned_result(&small, 3, 0).unwrap().action_taken, EmailAction::Allow);
}

#[test]
fn extract_attachments_from_text() {
    let scanner = EmailScannerImpl::new();
    let found = scanner.extract_attachments("/mail/1.eml", "X\nContent-Disposition: attachment; filename=a\n");
    assert_eq!(found.len(), 1);
    assert_eq!(found[0].filename, "extracted_attachment.bin");
    assert_eq!(found[0].temp_path, "/mail/1.eml");
    assert_eq!(found[0].size, 1024);
    assert!(scanner.extract_attachments("/mail/2.eml", "plain text").is_empty());
}

#[test]
fn file_size_limit_and_signature() {
    let s = FileScanner::new();
    assert!(s.size_error(100).is_none());
    assert_eq!(
        s.size_error(200 * 1024 * 1024),
        Some(AntivirusError::ScanEngine(ScanEngineError::FileAccessDenied(
            "File too large: 209715200 bytes".to_string()
        )))
    );
    assert_eq!(s.signature_bytes(&[1, 2, 3]), vec![1, 2, 3]);
    assert_eq!(s.signature_bytes(&[9u8; 20]).len(), 16);
}

#[test]
fn structured_event_details_hold_every_field() {
    let mut logger = EventLogger::new(log_config("/l/av.log", 2), "/l/archive".to_string());
    let mut t = threat();
    t.add_info("zone".to_string(), "internet".to_string());
    let (event, _, _) = log_structured_threat_event(&mut logger, &t);
    let d = event.details.unwrap();
    assert_eq!(d["file_path"], "/tmp/x.exe");
    assert_eq!(d["file_hash"], "a".repeat(64));
    assert_eq!(d["additional_info"]["zone"], "internet");
    assert_eq!(d.as_object().unwrap().len(), 7);
    let (ok, _, _) = log_structured_quarantine_event(&mut logger, QuarantineOperation::Restore, 1, "/tmp/f", None);
    let d = ok.details.unwrap();
    assert!(d["error"].is_null());
    assert_eq!(d["operation"], "Restore");
    assert_eq!(d["file_path"], "/tmp/f");
    let (scan, _, _) = log_structured_scan_event(&mut logger, 3, "scan_done", "done", Some(serde_json::Value::Bool(true)));
    assert_eq!(scan.details.unwrap()["additional_details"], true);
}
