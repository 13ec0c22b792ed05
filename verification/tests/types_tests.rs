use hadron_core::error::AntivirusError;
use hadron_core::types::{
    DetectionMethod, QuarantineEntry, ScanResult, ScanStatus, SystemStatus, ThreatInfo,
    ThreatSeverity, ThreatType,
};

fn threat(name: &str, t: ThreatType, s: ThreatSeverity, path: &str, c: &str) -> ThreatInfo {
    ThreatInfo::new(
        name.to_string(),
        t,
        s,
        path.to_string(),
        c.repeat(64),
        DetectionMethod::Signature,
    )
    .unwrap()
}

fn entry_of_size(size: u64) -> QuarantineEntry {
    let mut e = QuarantineEntry::new(
        "/tmp/test.exe".to_string(),
        threat("Test", ThreatType::Virus, ThreatSeverity::Low, "/tmp/test.exe", "f"),
        0,
        "/quarantine/test".to_string(),
    );
    e.file_size = size;
    e
}

#[test]
fn test_threat_info_creation() {
    let threat = ThreatInfo::new(
        "Test.Malware".to_string(),
        ThreatType::Virus,
        ThreatSeverity::High,
        "/tmp/test.exe".to_string(),
        "a".repeat(64),
        DetectionMethod::Signature,
    );

    assert!(threat.is_ok());
    let threat = threat.unwrap();
    assert_eq!(threat.name, "Test.Malware");
    assert_eq!(threat.threat_type, ThreatType::Virus);
    assert_eq!(threat.severity, ThreatSeverity::High);
}

#[test]
fn test_threat_info_validation() {
    let result = ThreatInfo::new(
        "".to_string(),
        ThreatType::Virus,
        ThreatSeverity::Low,
        "/tmp/test.exe".to_string(),
        "a".repeat(64),
        DetectionMethod::Signature,
    );
    assert!(result.is_err());

    let result = ThreatInfo::new(
        "Test.Malware".to_string(),
        ThreatType::Virus,
        ThreatSeverity::Low,
        "/tmp/test.exe".to_string(),
        "invalid_hash".to_string(),
        DetectionMethod::Signature,
    );
    assert!(result.is_err());
}

#[test]
fn test_threat_risk_score() {
    let mut threat = threat(
        "Test.Ransomware",
        ThreatType::Ransomware,
        ThreatSeverity::Critical,
        "/tmp/test.exe",
        "a",
    );
    assert_eq!(threat.get_risk_score(), 100);
    assert!(threat.requires_immediate_action());

    threat.threat_type = ThreatType::Adware;
    threat.severity = ThreatSeverity::Low;
    assert_eq!(threat.get_risk_score(), 15);
    assert!(!threat.requires_immediate_action());
}

#[test]
fn test_scan_result_lifecycle() {
    let scan_id = uuid::Uuid::new_v4().as_u128();
    let mut result = ScanResult::new(scan_id);

    assert_eq!(result.scan_id, scan_id);
    assert_eq!(result.status, ScanStatus::Running);
    assert!(result.end_time.is_none());

    let t = ThreatInfo::new(
        "Test.Virus".to_string(),
        ThreatType::Virus,
        ThreatSeverity::Medium,
        "/tmp/virus.exe".to_string(),
        "b".repeat(64),
        DetectionMethod::Heuristic,
    )
    .unwrap();

    result.add_threat(t);
    assert!(result.has_threats());
    assert_eq!(result.threats_found.len(), 1);

    result.complete();
    assert_eq!(result.status, ScanStatus::Completed);
    assert!(result.end_time.is_some());
    assert!(result.get_duration_ms().map(|ms| ms as f64 / 1000.0).is_some());
}

#[test]
fn test_threat_severity_ordering() {
    assert!(ThreatSeverity::Critical.to_numeric() > ThreatSeverity::High.to_numeric());
    assert!(ThreatSeverity::High.to_numeric() > ThreatSeverity::Medium.to_numeric());
    assert!(ThreatSeverity::Medium.to_numeric() > ThreatSeverity::Low.to_numeric());

    assert_eq!(ThreatSeverity::from_numeric(4), Some(ThreatSeverity::Critical));
    assert_eq!(ThreatSeverity::from_numeric(0), None);
}

#[test]
fn test_quarantine_entry() {
    let t = ThreatInfo::new(
        "Test.Malware".to_string(),
        ThreatType::Trojan,
        ThreatSeverity::High,
        "/tmp/malware.exe".to_string(),
        "c".repeat(64),
        DetectionMethod::MachineLearning,
    )
    .unwrap();

    let entry = QuarantineEntry::new(
        "/tmp/malware.exe".to_string(),
        t,
        1024,
        "/quarantine/encrypted_file".to_string(),
    );

    assert_eq!(entry.get_file_name(), "malware.exe");
    assert_eq!(entry.get_formatted_size(), "1.00 KB");
    assert_eq!(entry.age_in_days(), 0);
    assert!(!entry.should_auto_delete(30));
}

#[test]
fn test_system_status() {
    let mut status = SystemStatus::new("1.0.0".to_string(), "2023.12.01".to_string());

    assert!(status.needs_update());
    assert!(status.needs_scan());
    assert_eq!(status.get_protection_status(), "Protected");

    let initial_score = status.get_health_score();
    assert!(initial_score < 100);

    status.realtime_protection_enabled = false;
    let disabled_score = status.get_health_score();
    assert!(disabled_score < initial_score);
    assert_eq!(status.get_protection_status(), "At Risk");

    status.threats_detected_today = 5;
    let threat_score = status.get_health_score();
    assert!(threat_score < disabled_score);
}

#[test]
fn test_scan_result_threat_filtering() {
    let scan_id = uuid::Uuid::new_v4().as_u128();
    let mut result = ScanResult::new(scan_id);

    let high_threat = ThreatInfo::new(
        "High.Threat".to_string(),
        ThreatType::Virus,
        ThreatSeverity::High,
        "/tmp/high.exe".to_string(),
        "d".repeat(64),
        DetectionMethod::Signature,
    )
    .unwrap();
    let low_threat = ThreatInfo::new(
        "Low.Threat".to_string(),
        ThreatType::Adware,
        ThreatSeverity::Low,
        "/tmp/low.exe".to_string(),
        "e".repeat(64),
        DetectionMethod::Heuristic,
    )
    .unwrap();

    result.add_threat(high_threat);
    result.add_threat(low_threat);

    let high_threats = result.get_threats_by_severity(ThreatSeverity::High);
    assert_eq!(high_threats.len(), 1);
    assert_eq!(high_threats[0].name, "High.Threat");

    let low_threats = result.get_threats_by_severity(ThreatSeverity::Low);
    assert_eq!(low_threats.len(), 1);
    assert_eq!(low_threats[0].name, "Low.Threat");

    let critical_threats = result.get_threats_by_severity(ThreatSeverity::Critical);
    assert_eq!(critical_threats.len(), 0);
}

#[test]
fn test_file_size_formatting() {
    assert_eq!(entry_of_size(512).get_formatted_size(), "512 B");
    assert_eq!(entry_of_size(1024).get_formatted_size(), "1.00 KB");
    assert_eq!(entry_of_size(1536).get_formatted_size(), "1.50 KB");
    assert_eq!(entry_of_size(1572864).get_formatted_size(), "1.50 MB");
    assert_eq!(entry_of_size(1610612736).get_formatted_size(), "1.50 GB");
}

#[test]
fn formatted_size_edges_match_float_formatting() {
    for n in [0u64, 1, 1023, 1025, 1029, 1152, 10_000, 1_048_575, 123_456_789, 1u64 << 40,
        (1u64 << 40) + 12345, 9_007_199_254_740_993, u64::MAX]
    {
        let size = n as f64;
        let mut v = size;
        let mut k = 0;
        let units = ["B", "KB", "MB", "GB", "TB"];
        while v >= 1024.0 && k < 4 {
            v /= 1024.0;
            k += 1;
        }
        let expected = if k == 0 {
            format!("{} {}", n, units[0])
        } else {
            format!("{:.2} {}", v, units[k])
        };
        assert_eq!(entry_of_size(n).get_formatted_size(), expected, "size {}", n);
    }
}

#[test]
fn threat_name_is_trimmed_and_hash_lowercased() {
    let t = ThreatInfo::new(
        "  Padded.Name \n".to_string(),
        ThreatType::Spyware,
        ThreatSeverity::Medium,
        "/tmp/x".to_string(),
        "ABCDEF".repeat(10) + "0123",
        DetectionMethod::Signature,
    )
    .unwrap();
    assert_eq!(t.name, "Padded.Name");
    assert_eq!(t.file_hash, "abcdef".repeat(10) + "0123");
    assert!(t.additional_info.is_empty());
}

#[test]
fn threat_errors_carry_their_messages() {
    match ThreatInfo::new(
        "   ".to_string(),
        ThreatType::Virus,
        ThreatSeverity::Low,
        "/tmp/x".to_string(),
        "a".repeat(64),
        DetectionMethod::Signature,
    ) {
        Err(AntivirusError::Internal(m)) => assert_eq!(m, "Threat name cannot be empty"),
        _ => panic!("expected an error"),
    }
    match ThreatInfo::new(
        "Name".to_string(),
        ThreatType::Virus,
        ThreatSeverity::Low,
        "/tmp/x".to_string(),
        "g".repeat(64),
        DetectionMethod::Signature,
    ) {
        Err(AntivirusError::Internal(m)) => assert_eq!(m, "Invalid file hash format"),
        _ => panic!("expected an error"),
    }
}

#[test]
fn risk_scores_stay_within_bounds() {
    let mut t = threat("T", ThreatType::Rootkit, ThreatSeverity::Critical, "/x", "a");
    assert_eq!(t.get_risk_score(), 100);
    t.severity = ThreatSeverity::High;
    assert_eq!(t.get_risk_score(), 90);
    t.threat_type = ThreatType::Suspicious;
    t.severity = ThreatSeverity::Medium;
    assert_eq!(t.get_risk_score(), 45);
    assert!(!t.requires_immediate_action());
    t.threat_type = ThreatType::Rootkit;
    assert!(t.requires_immediate_action());
}

#[test]
fn add_info_replaces_an_existing_key() {
    let mut t = threat("T", ThreatType::Virus, ThreatSeverity::Low, "/x", "a");
    t.add_info("k".to_string(), "1".to_string());
    t.add_info("j".to_string(), "2".to_string());
    t.add_info("k".to_string(), "3".to_string());
    assert_eq!(t.additional_info.len(), 2);
    assert!(t.additional_info.contains(&("k".to_string(), "3".to_string())));
    assert!(t.additional_info.contains(&("j".to_string(), "2".to_string())));
}

#[test]
fn severity_numbers_round_trip() {
    for s in [ThreatSeverity::Low, ThreatSeverity::Medium, ThreatSeverity::High, ThreatSeverity::Critical] {
        assert_eq!(ThreatSeverity::from_numeric(s.to_numeric()), Some(s));
    }
    assert_eq!(ThreatSeverity::from_numeric(5), None);
    assert_eq!(ThreatSeverity::Critical.get_color_code(), "#dc3545");
    assert_eq!(ThreatSeverity::Low.get_color_code(), "#28a745");
}

#[test]
fn scan_result_statistics_follow_the_scan() {
    let mut r = ScanResult::started_at(7, 1_000);
    r.scanned_files = 3;
    r.add_threat(threat("A", ThreatType::Virus, ThreatSeverity::Low, "/a", "a"));
    r.add_error("/b".to_string(), "denied".to_string());
    assert_eq!(r.errors.len(), 1);
    assert_eq!(r.get_duration_ms(), None);
    r.fail("disk gone".to_string());
    assert_eq!(r.status, ScanStatus::Failed);
    assert!(r.end_time.is_some());
}

#[test]
fn quarantine_age_is_whole_days_toward_zero() {
    let e = entry_of_size(1);
    let t = e.quarantine_time;
    assert_eq!(e.age_in_days_at(t + 86_400_000 * 2 + 5), 2);
    assert_eq!(e.age_in_days_at(t - 86_400_000 - 1), -1);
    assert_eq!(e.age_in_days_at(t + 86_399_999), 0);
}

#[test]
fn file_name_of_a_path_without_one_is_unknown() {
    let mut e = entry_of_size(1);
    e.original_path = "/".to_string();
    assert_eq!(e.get_file_name(), "Unknown");
    e.original_path = "dir/sub/".to_string();
    assert_eq!(e.get_file_name(), "sub");
}

#[test]
fn system_status_at_given_times() {
    let mut s = SystemStatus::new("1".to_string(), "2".to_string());
    let now = 10 * 86_400_000;
    s.last_update_time = Some(now - 24 * 3_600_000);
    s.last_scan_time = Some(now - 7 * 86_400_000);
    assert!(!s.needs_update_at(now));
    assert!(!s.needs_scan_at(now));
    assert_eq!(s.health_score_at(now), 100);
    s.last_update_time = Some(now - 25 * 3_600_000);
    s.last_scan_time = Some(now - 8 * 86_400_000);
    assert!(s.needs_update_at(now));
    assert!(s.needs_scan_at(now));
    assert_eq!(s.health_score_at(now), 65);
    s.realtime_protection_enabled = false;
    s.threats_detected_today = 2;
    assert_eq!(s.health_score_at(now), 15);
    assert_eq!(SystemStatus::health_status_of(15), "Critical");
    assert_eq!(SystemStatus::health_status_of(90), "Excellent");
    assert_eq!(SystemStatus::health_status_of(70), "Good");
    assert_eq!(SystemStatus::health_status_of(50), "Fair");
    assert_eq!(SystemStatus::health_status_of(30), "Poor");
}
