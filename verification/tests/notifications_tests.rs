use hadron_core::notifications::{clock_text, Notification, NotificationManager, NotificationSeverity, NotificationType};
use hadron_core::types::{DetectionMethod, ThreatInfo, ThreatSeverity, ThreatType};

fn threat(severity: ThreatSeverity) -> ThreatInfo {
    ThreatInfo::new(
        "Trojan.Gen".to_string(),
        ThreatType::Trojan,
        severity,
        "/home/u/x.exe".to_string(),
        "a".repeat(64),
        DetectionMethod::Signature,
    )
    .unwrap()
}

#[test]
fn notification_texts() {
    let n = Notification::new(NotificationType::ThreatDetected(threat(ThreatSeverity::High)));
    assert_eq!(n.get_title(), "Threat Detected: Trojan.Gen");
    assert_eq!(
        n.get_message(),
        "Threat 'Trojan.Gen' detected in file: /home/u/x.exe\nSeverity: High\nAction: File quarantined"
    );
    assert_eq!(n.get_severity(), NotificationSeverity::High);
    assert_eq!(n.auto_dismiss_after, None);
    assert!(!n.is_read);

    let n = Notification::new(NotificationType::ScanCompleted { threats_found: 0, files_scanned: 12 });
    assert_eq!(n.get_title(), "Scan Completed - No threats found");
    assert_eq!(n.get_message(), "Scan completed successfully.\nFiles scanned: 12\nThreats found: 0");
    assert_eq!(n.get_severity(), NotificationSeverity::Info);
    assert_eq!(n.auto_dismiss_after, Some(10));

    let n = Notification::new(NotificationType::ScanCompleted { threats_found: 3, files_scanned: 12 });
    assert_eq!(n.get_title(), "Scan Completed - 3 threats found");
    assert_eq!(n.get_severity(), NotificationSeverity::Medium);

    let n = Notification::new(NotificationType::UpdateAvailable { version: "2.1".to_string() });
    assert_eq!(n.get_title(), "Update Available: 2.1");
    assert_eq!(n.get_message(), "A new update (2.1) is available for download.");

    let n = Notification::new(NotificationType::UpdateCompleted { version: "2.1".to_string() });
    assert_eq!(n.get_title(), "Update Completed: 2.1");
    assert_eq!(n.get_message(), "Successfully updated to version 2.1.");

    let n = Notification::new(NotificationType::QuarantineAction {
        action: "restored".to_string(),
        file_name: "a.doc".to_string(),
    });
    assert_eq!(n.get_title(), "Quarantine: restored a.doc");
    assert_eq!(n.get_message(), "Successfully restored file: a.doc");

    let n = Notification::new(NotificationType::SystemError { message: "disk full".to_string() });
    assert_eq!(n.get_title(), "System Error");
    assert_eq!(n.get_message(), "disk full");
    assert_eq!(n.get_severity(), NotificationSeverity::High);
    assert_eq!(n.auto_dismiss_after, None);

    let n = Notification::new(NotificationType::Info { message: "hello".to_string() });
    assert_eq!(n.get_title(), "Information");
    assert_eq!(n.get_severity(), NotificationSeverity::Info);
}

#[test]
fn severity_colors() {
    assert_eq!(NotificationSeverity::Info.get_color(), (0, 0, 255));
    assert_eq!(NotificationSeverity::Low.get_color(), (0, 255, 0));
    assert_eq!(NotificationSeverity::Medium.get_color(), (255, 255, 0));
    assert_eq!(NotificationSeverity::High.get_color(), (255, 165, 0));
    assert_eq!(NotificationSeverity::Critical.get_color(), (255, 0, 0));
}

#[test]
fn auto_dismissal_after_ten_seconds() {
    let n = Notification::new(NotificationType::Info { message: "m".to_string() });
    let t = n.timestamp;
    assert!(!n.should_auto_dismiss_at(t + 10_000));
    assert!(n.should_auto_dismiss_at(t + 10_001));
    assert!(!n.should_auto_dismiss());
    let e = Notification::new(NotificationType::SystemError { message: "m".to_string() });
    assert!(!e.should_auto_dismiss_at(t + 1_000_000_000));
}

#[test]
fn manager_keeps_newest_first_and_at_most_fifty() {
    let mut m = NotificationManager::new();
    for i in 0..55u64 {
        m.add_notification(NotificationType::ScanCompleted { threats_found: 0, files_scanned: i });
    }
    let list = m.get_notifications();
    assert_eq!(list.len(), 50);
    assert!(matches!(list[0].notification_type, NotificationType::ScanCompleted { files_scanned: 54, .. }));
    assert!(matches!(list[49].notification_type, NotificationType::ScanCompleted { files_scanned: 5, .. }));
    assert_eq!(m.get_unread_count(), 50);
}

#[test]
fn read_remove_clear() {
    let mut m = NotificationManager::new();
    m.add_notification(NotificationType::Info { message: "a".to_string() });
    m.add_notification(NotificationType::Info { message: "b".to_string() });
    let first = m.get_notifications()[0].id;
    let second = m.get_notifications()[1].id;
    m.mark_as_read(first);
    assert!(m.get_notifications()[0].is_read);
    assert!(!m.get_notifications()[1].is_read);
    assert_eq!(m.get_unread_count(), 1);
    m.remove_notification(second);
    assert_eq!(m.get_notifications().len(), 1);
    assert_eq!(m.get_notifications()[0].id, first);
    m.clear_all();
    assert!(m.get_notifications().is_empty());
}

#[test]
fn expired_notifications_leave_on_update() {
    let mut m = NotificationManager::new();
    m.add_notification(NotificationType::Info { message: "a".to_string() });
    m.add_notification(NotificationType::ThreatDetected(threat(ThreatSeverity::Low)));
    let t = m.get_notifications()[0].timestamp.max(m.get_notifications()[1].timestamp);
    m.update_at(t + 60_000);
    assert_eq!(m.get_notifications().len(), 1);
    assert!(matches!(m.get_notifications()[0].notification_type, NotificationType::ThreatDetected(_)));
    m.update();
    assert_eq!(m.get_notifications().len(), 1);
}

#[test]
fn toasts_are_recent_unread_and_serious() {
    let mut m = NotificationManager::new();
    m.add_notification(NotificationType::ThreatDetected(threat(ThreatSeverity::Critical)));
    m.add_notification(NotificationType::Info { message: "x".to_string() });
    m.add_notification(NotificationType::SystemError { message: "e".to_string() });
    m.add_notification(NotificationType::ThreatDetected(threat(ThreatSeverity::Low)));
    assert_eq!(m.toast_indices(), vec![1]);
    let id = m.get_notifications()[1].id;
    m.mark_as_read(id);
    assert!(m.toast_indices().is_empty());
    m.add_notification(NotificationType::ThreatDetected(threat(ThreatSeverity::Medium)));
    assert_eq!(m.toast_indices(), vec![0]);
    m.set_notifications_enabled(false);
    assert!(m.toast_indices().is_empty());
}

#[test]
fn clock_text_is_utc_time_of_day() {
    assert_eq!(clock_text(0), "00:00:00");
    assert_eq!(clock_text(1_700_000_000_123), "22:13:20");
    assert_eq!(clock_text(-1), "23:59:59");
    assert_eq!(clock_text(86_399_999), "23:59:59");
}

#[test]
fn panel_summary_counts() {
    let mut m = NotificationManager::new();
    assert_eq!(m.panel_summary(), ("Total: 0".to_string(), None));
    m.add_notification(NotificationType::Info { message: "a".to_string() });
    m.add_notification(NotificationType::Info { message: "b".to_string() });
    assert_eq!(m.panel_summary(), ("Total: 2".to_string(), Some("Unread: 2".to_string())));
    let id = m.get_notifications()[0].id;
    m.mark_as_read(id);
    assert_eq!(m.panel_summary(), ("Total: 2".to_string(), Some("Unread: 1".to_string())));
}
