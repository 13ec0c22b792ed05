use hadron_core::config::{AntivirusConfig, LoggingConfig, QuarantineConfig, ServiceConfig};
use hadron_core::error::ConfigError;
use hadron_core::traits::{
    EnterprisePolicy, PolicyRestrictions, RealtimeSettings, ScanSettings, UpdateSettings,
    WhitelistEntry,
};

fn entry(path: &str, reason: &str) -> WhitelistEntry {
    WhitelistEntry {
        path: path.to_string(),
        hash: Some("abc123".to_string()),
        expiry: None,
        reason: reason.to_string(),
    }
}

fn strict_policy() -> EnterprisePolicy {
    EnterprisePolicy {
        policy_version: "1.0".to_string(),
        scan_settings: ScanSettings {
            scan_archives: false,
            scan_email: false,
            scan_network_drives: true,
            max_file_size_mb: 50,
            timeout_seconds: 60,
            heuristic_level: 1,
        },
        realtime_settings: RealtimeSettings {
            enabled: false,
            scan_on_access: false,
            scan_on_write: false,
            scan_downloads: false,
            scan_removable_media: false,
        },
        update_settings: UpdateSettings::default(),
        restrictions: PolicyRestrictions {
            allow_user_whitelist: false,
            allow_disable_realtime: false,
            allow_quarantine_restore: false,
            require_admin_for_settings: true,
        },
    }
}

fn message(r: Result<(), ConfigError>) -> String {
    match r {
        Err(ConfigError::ValidationFailed(m)) => m,
        Ok(()) => panic!("expected a validation failure"),
    }
}

#[test]
fn test_default_config_validation() {
    let config = AntivirusConfig::default();
    assert!(config.validate().is_ok());
}

#[test]
fn test_config_validation_failures() {
    let mut config = AntivirusConfig::default();

    config.service.max_concurrent_scans = 0;
    assert!(config.validate().is_err());

    config = AntivirusConfig::default();
    config.quarantine.max_quarantine_size_mb = 0;
    assert!(config.validate().is_err());

    config = AntivirusConfig::default();
    config.scan_settings.heuristic_level = 10;
    assert!(config.validate().is_err());
}

#[test]
fn test_config_merge() {
    let mut base_config = AntivirusConfig::default();
    let mut other_config = AntivirusConfig::default();

    other_config.service.max_concurrent_scans = 8;
    other_config.realtime_protection.scan_on_access = false;
    other_config.whitelist.push(entry("C:\\test.exe", "Test entry"));

    base_config.merge_with(&other_config);

    assert_eq!(base_config.service.max_concurrent_scans, 8);
    assert!(!base_config.realtime_protection.scan_on_access);
    assert_eq!(base_config.whitelist.len(), 1);
}

#[test]
fn test_enterprise_policy_override() {
    let mut config = AntivirusConfig::default();

    assert!(!config.has_enterprise_policy());
    assert_eq!(config.get_effective_scan_settings().scan_archives, true);

    config.enterprise_policy = Some(strict_policy());

    assert!(config.has_enterprise_policy());
    assert!(!config.get_effective_scan_settings().scan_archives);
    assert!(!config.get_effective_realtime_settings().enabled);
}

#[test]
fn test_service_config_defaults() {
    let service_config = ServiceConfig::default();
    assert_eq!(service_config.service_name, "WindowsAntivirusService");
    assert_eq!(service_config.pipe_name, "\\\\.\\pipe\\av_service");
    assert_eq!(service_config.max_concurrent_scans, 4);
    assert_eq!(service_config.scan_timeout_seconds, 3600);
    assert_eq!(service_config.memory_limit_mb, 1024);
}

#[test]
fn test_quarantine_config_defaults() {
    let quarantine_config = QuarantineConfig::default();
    assert_eq!(
        quarantine_config.quarantine_path,
        "C:\\ProgramData\\WindowsAntivirus\\Quarantine"
    );
    assert_eq!(quarantine_config.max_quarantine_size_mb, 10240);
    assert_eq!(quarantine_config.auto_delete_after_days, 30);
}

#[test]
fn test_logging_config_defaults() {
    let logging_config = LoggingConfig::default();
    assert_eq!(logging_config.log_level, "info");
    assert_eq!(logging_config.max_log_file_size_mb, 100);
    assert_eq!(logging_config.max_log_files, 10);
    assert!(!logging_config.enable_console_logging);
    assert!(logging_config.enable_windows_event_log);
    assert!(logging_config.enable_json_logging);
}

#[test]
fn validation_reports_each_rule_with_its_message() {
    let mut c = AntivirusConfig::default();
    c.service.max_concurrent_scans = 0;
    assert_eq!(message(c.validate()), "max_concurrent_scans must be greater than 0");

    let mut c = AntivirusConfig::default();
    c.service.scan_timeout_seconds = 0;
    assert_eq!(message(c.validate()), "scan_timeout_seconds must be greater than 0");

    let mut c = AntivirusConfig::default();
    c.quarantine.max_quarantine_size_mb = 0;
    assert_eq!(message(c.validate()), "max_quarantine_size_mb must be greater than 0");

    let mut c = AntivirusConfig::default();
    c.scan_settings.max_file_size_mb = 0;
    assert_eq!(message(c.validate()), "max_file_size_mb must be greater than 0");

    let mut c = AntivirusConfig::default();
    c.scan_settings.heuristic_level = 6;
    assert_eq!(message(c.validate()), "heuristic_level must be between 0 and 5");

    let mut c = AntivirusConfig::default();
    c.scan_settings.heuristic_level = 5;
    assert!(c.validate().is_ok());

    let mut c = AntivirusConfig::default();
    c.update.update_frequency_hours = 0;
    assert_eq!(message(c.validate()), "update_frequency_hours must be greater than 0");

    let mut c = AntivirusConfig::default();
    c.logging.max_log_file_size_mb = 0;
    assert_eq!(message(c.validate()), "max_log_file_size_mb must be greater than 0");

    let mut c = AntivirusConfig::default();
    c.logging.max_log_files = 0;
    assert_eq!(message(c.validate()), "max_log_files must be greater than 0");
}

#[test]
fn validation_reports_the_first_broken_rule() {
    let mut c = AntivirusConfig::default();
    c.logging.max_log_files = 0;
    c.service.max_concurrent_scans = 0;
    assert_eq!(message(c.validate()), "max_concurrent_scans must be greater than 0");
}

#[test]
fn merge_keeps_base_entries_and_skips_equal_paths() {
    let mut base = AntivirusConfig::default();
    base.whitelist.push(entry("/opt/tool", "base"));
    let mut other = AntivirusConfig::default();
    other.whitelist.push(entry("/opt/tool/", "duplicate path"));
    other.whitelist.push(entry("/opt/other", "new"));
    other.whitelist.push(entry("/opt/other", "repeated in other"));

    base.merge_with(&other);

    assert_eq!(base.whitelist.len(), 2);
    assert_eq!(base.whitelist[0].reason, "base");
    assert_eq!(base.whitelist[1].path, "/opt/other");
    assert_eq!(base.whitelist[1].reason, "new");
}

#[test]
fn merge_takes_policy_only_when_other_has_one() {
    let mut base = AntivirusConfig::default();
    base.enterprise_policy = Some(strict_policy());
    let other = AntivirusConfig::default();
    base.merge_with(&other);
    assert!(base.has_enterprise_policy());

    let mut base = AntivirusConfig::default();
    let mut other = AntivirusConfig::default();
    other.enterprise_policy = Some(strict_policy());
    other.service.service_name = "Other".to_string();
    base.merge_with(&other);
    assert!(base.has_enterprise_policy());
    assert_eq!(base.service.service_name, "WindowsAntivirusService");
    assert_eq!(base.get_effective_scan_settings().max_file_size_mb, 50);
}

#[test]
fn merging_twice_changes_nothing() {
    let mut base = AntivirusConfig::default();
    base.whitelist.push(entry("/opt/base", "base"));
    let mut other = AntivirusConfig::default();
    other.service.max_concurrent_scans = 6;
    other.whitelist.push(entry("/opt/base", "again"));
    other.whitelist.push(entry("/opt/other", "new"));
    base.merge_with(&other);
    let once: Vec<(String, String)> = base.whitelist.iter().map(|e| (e.path.clone(), e.reason.clone())).collect();
    base.merge_with(&other);
    let twice: Vec<(String, String)> = base.whitelist.iter().map(|e| (e.path.clone(), e.reason.clone())).collect();
    assert_eq!(once, twice);
    assert_eq!(twice.len(), 2);
    assert_eq!(base.service.max_concurrent_scans, 6);
}
