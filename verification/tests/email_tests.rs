use hadron_core::email_scanner::{EmailAction, EmailAttachment, EmailScanConfig, EmailScannerImpl};
use hadron_core::types::{DetectionMethod, ScanResult, ThreatInfo, ThreatSeverity, ThreatType};

fn attachment(name: &str, size: u64) -> EmailAttachment {
    EmailAttachment {
        filename: name.to_string(),
        content_type: "application/octet-stream".to_string(),
        size,
        temp_path: format!("/tmp/{}", name),
        email_subject: "Test".to_string(),
        sender: "test@example.com".to_string(),
        recipient: "user@example.com".to_string(),
    }
}

#[test]
fn test_extension_checking() {
    let scanner = EmailScannerImpl::new();
    assert!(scanner.is_extension_blocked("malware.exe"));
    assert!(scanner.is_extension_blocked("script.vbs"));
    assert!(!scanner.is_extension_blocked("document.pdf"));
    assert!(scanner.is_extension_allowed("document.pdf"));
    assert!(scanner.is_extension_allowed("spreadsheet.xlsx"));
    assert!(!scanner.is_extension_allowed("unknown.xyz"));
}

#[test]
fn test_config_update() {
    let mut scanner = EmailScannerImpl::new();
    let mut new_config = EmailScanConfig::default();
    new_config.enabled = false;
    new_config.max_attachment_size_mb = 100;
    scanner.update_config(new_config);
    assert!(!scanner.get_config().enabled);
    assert_eq!(scanner.get_config().max_attachment_size_mb, 100);
}

#[test]
fn test_email_scanner_creation() {
    let scanner = EmailScannerImpl::new();
    assert!(scanner.get_config().enabled);
    assert!(scanner.get_config().scan_attachments);
}

#[test]
fn test_attachment_allowed() {
    let scanner = EmailScannerImpl::new();
    assert!(scanner.is_attachment_allowed(&attachment("document.pdf", 1024)));
    assert!(!scanner.is_attachment_allowed(&attachment("malware.exe", 1024)));
}

#[test]
fn extension_checks_ignore_case_and_need_an_extension() {
    let scanner = EmailScannerImpl::new();
    assert!(scanner.is_extension_blocked("SETUP.EXE"));
    assert!(scanner.is_extension_allowed("Report.PDF"));
    assert!(!scanner.is_extension_blocked("exe"));
    assert!(!scanner.is_extension_blocked(".exe"));
    assert!(scanner.is_extension_blocked("archive.tar.js"));
}

#[test]
fn attachments_over_the_size_limit_are_refused() {
    let scanner = EmailScannerImpl::new();
    assert!(scanner.is_attachment_allowed(&attachment("big.pdf", 50 * 1024 * 1024)));
    assert!(!scanner.is_attachment_allowed(&attachment("big.pdf", 50 * 1024 * 1024 + 1)));
    let mut config = EmailScanConfig::default();
    config.allowed_extensions.clear();
    let open = EmailScannerImpl::with_config(config);
    assert!(open.is_attachment_allowed(&attachment("data.xyz", 10)));
    assert!(!open.is_attachment_allowed(&attachment("run.bat", 10)));
}

#[test]
fn pre_scan_actions() {
    let scanner = EmailScannerImpl::new();
    assert_eq!(scanner.pre_scan_action(&attachment("a.txt", 10)), None);
    assert_eq!(
        scanner.pre_scan_action(&attachment("a.txt", 51 * 1024 * 1024)),
        Some(EmailAction::Warn)
    );
    let mut config = EmailScanConfig::default();
    config.scan_attachments = false;
    let off = EmailScannerImpl::with_config(config);
    assert_eq!(off.pre_scan_action(&attachment("a.exe", 51 * 1024 * 1024)), Some(EmailAction::Allow));
}

#[test]
fn actions_after_the_scan() {
    let scanner = EmailScannerImpl::new();
    let mut clean = ScanResult::started_at(1, 0);
    assert_eq!(scanner.determine_action(&attachment("a.txt", 10), &clean), EmailAction::Allow);
    assert_eq!(scanner.determine_action(&attachment("a.exe", 10), &clean), EmailAction::Block);
    clean.add_error("/tmp/a.txt".to_string(), "unreadable".to_string());
    assert_eq!(scanner.determine_action(&attachment("a.txt", 10), &clean), EmailAction::Warn);

    let mut infected = ScanResult::started_at(2, 0);
    infected.add_threat(
        ThreatInfo::new(
            "Bad".to_string(),
            ThreatType::Virus,
            ThreatSeverity::High,
            "/tmp/a.txt".to_string(),
            "a".repeat(64),
            DetectionMethod::Signature,
        )
        .unwrap(),
    );
    assert_eq!(scanner.determine_action(&attachment("a.txt", 10), &infected), EmailAction::Quarantine);
    let mut config = EmailScanConfig::default();
    config.quarantine_infected = false;
    let blocking = EmailScannerImpl::with_config(config);
    assert_eq!(blocking.determine_action(&attachment("a.txt", 10), &infected), EmailAction::Block);
}

#[test]
fn attachment_markers_in_mail_text() {
    let scanner = EmailScannerImpl::new();
    assert!(scanner.has_attachment_marker("X: y\r\nContent-Disposition: attachment; filename=a.pdf"));
    assert!(!scanner.has_attachment_marker("Content-Disposition: inline"));
}

#[test]
fn scanning_off_allows_without_the_size_limit() {
    let mut config = EmailScanConfig::default();
    config.enabled = false;
    config.max_attachment_size_mb = u64::MAX;
    let off = EmailScannerImpl::with_config(config);
    let r = off.unscanned_result(&attachment("big.bin", u64::MAX), 5, 3).unwrap();
    assert_eq!(r.action_taken, EmailAction::Allow);
    assert_eq!(r.scan_result.scan_id, 5);
    assert!(r.scan_result.threats_found.is_empty());
    assert_eq!(r.scan_duration_ms, 3);
}
