use hadron_core::mock_api::{MockApiClient, FIFTY_PERCENT};
use hadron_core::removable_media::DeviceType;
use hadron_core::types::{ScanStatus, ScanType};

fn client() -> MockApiClient {
    let mut c = MockApiClient::new("\\\\.\\pipe\\hadron".to_string());
    assert!(c.connect().is_ok());
    c
}

#[test]
fn mock_connect_and_disconnect_succeed() {
    let mut c = client();
    assert!(c.disconnect().is_ok());
}

#[test]
fn mock_scan_status_is_running() {
    let c = client();
    let job = c.start_scan(ScanType::Quick, vec![]).unwrap();
    assert!(matches!(c.get_scan_status(job).unwrap(), ScanStatus::Running));
}

#[test]
fn mock_jobs_get_distinct_ids() {
    let c = client();
    let a = c.start_scan(ScanType::Full, vec![]).unwrap();
    let b = c.start_scan(ScanType::Full, vec![]).unwrap();
    assert_ne!(a, b);
}

#[test]
fn mock_system_status_values() {
    let c = client();
    let s = c.get_system_status_at(1_000_000).unwrap();
    assert!(s.realtime_protection_enabled);
    assert_eq!(s.engine_version, "1.0.0");
    assert_eq!(s.signature_version, "2024.01.01");
    assert_eq!(s.last_scan_time, Some(1_000_000));
    assert_eq!(s.last_update_time, Some(1_000_000));
    assert_eq!(s.threats_detected_today, 0);
    assert_eq!(s.quarantine_count, 0);
}

#[test]
fn mock_scan_progress_is_half_done() {
    let c = client();
    let p = c.get_scan_progress(7).unwrap();
    assert_eq!(p.scan_id, 7);
    assert_eq!(f32::from_bits(p.percentage_complete), 50.0);
    assert_eq!(p.percentage_complete, FIFTY_PERCENT);
    assert_eq!(p.files_scanned, 1000);
    assert_eq!(p.total_files, 2000);
    assert_eq!(p.current_file.as_deref(), Some("C:\\Windows\\System32\\kernel32.dll"));
    assert_eq!(p.estimated_time_remaining_ms, Some(30000));
}

#[test]
fn mock_scan_result_refuses_malformed_sample_digests() {
    let c = client();
    let now: i64 = 10_000_000;
    let r = c.get_scan_result_at(42, now).unwrap();
    assert_eq!(r.scan_id, 42);
    assert_eq!(r.start_time, now - 300_000);
    assert_eq!(r.end_time, Some(now));
    assert!(matches!(r.status, ScanStatus::Completed));
    assert_eq!(r.scanned_files, 15420);
    assert!(r.threats_found.is_empty());
    assert_eq!(r.statistics.infected_files, 3);
    assert_eq!(r.statistics.cleaned_files, 2);
    assert_eq!(r.statistics.scan_duration_ms, 300000);
}

#[test]
fn mock_empty_lists() {
    let c = client();
    assert!(c.get_quarantine_list().unwrap().is_empty());
    assert!(c.check_updates().unwrap().is_empty());
    assert!(c.apply_updates().is_ok());
    assert!(c.restore_from_quarantine("q".to_string()).is_ok());
    assert!(c.delete_from_quarantine("q".to_string()).is_ok());
    assert!(c.update_configuration_value("k".to_string(), "v".to_string()).is_ok());
    assert!(c.get_configuration().is_ok());
}

#[test]
fn mock_removable_devices() {
    let c = client();
    let now: i64 = 1_000_000_000;
    let v = c.get_removable_devices_at(now).unwrap();
    assert_eq!(v.len(), 3);
    assert_eq!(v[0].device_id, "usb_001");
    assert_eq!(v[0].device_type, DeviceType::UsbDrive);
    assert_eq!(v[0].mount_time, now - 30 * 60_000);
    assert_eq!(v[0].last_scan_time, None);
    assert_eq!(v[1].device_id, "sd_001");
    assert!(v[1].is_trusted);
    assert_eq!(v[1].last_scan_time, Some(now - 120 * 60_000));
    assert_eq!(v[2].file_system, "NTFS");
    assert_eq!(v[2].total_size_bytes, 1_000_000_000_000);
    assert_eq!(v[2].last_scan_time, Some(now - 1440 * 60_000));
}

#[test]
fn mock_device_scan_counts_files_by_kind() {
    let c = client();
    let now: i64 = 5_000_000;
    let hdd = c.get_removable_device_scan_result_at("hdd_001".to_string(), now).unwrap();
    assert_eq!(hdd.scanned_files, 5000);
    assert_eq!(hdd.start_time, now - 30000);
    let usb = c.get_removable_device_scan_result_at("usb_001".to_string(), now).unwrap();
    assert_eq!(usb.scanned_files, 150);
    assert!(usb.threats_found.is_empty());
    assert_eq!(usb.statistics.infected_files, 0);
    assert!(c.clean_removable_device("usb_001".to_string()).is_ok());
    assert!(c.set_device_trust("usb_001".to_string(), true).is_ok());
    assert!(c.scan_removable_device("usb_001".to_string()).is_ok());
}

#[test]
fn mock_configuration_is_the_default() {
    let c = client();
    let cfg = c.get_configuration().unwrap();
    assert_eq!(cfg.service.service_name, "WindowsAntivirusService");
    assert_eq!(cfg.service.max_concurrent_scans, 4);
    assert_eq!(cfg.service.scan_timeout_seconds, 3600);
    assert_eq!(cfg.quarantine.max_quarantine_size_mb, 10240);
    assert_eq!(cfg.logging.log_level, "info");
    assert_eq!(cfg.update.update_frequency_hours, 4);
    assert_eq!(cfg.ui.language, "en");
    assert!(cfg.whitelist.is_empty());
    assert!(cfg.enterprise_policy.is_none());
}

#[test]
fn mock_reads_at_the_current_time() {
    let c = client();
    let r = c.get_scan_result(7).unwrap();
    assert_eq!(r.scan_id, 7);
    assert_eq!(r.scanned_files, 15420);
    assert_eq!(r.end_time, Some(r.start_time + 300000));
    assert!(r.start_time > 0);
    let v = c.get_removable_devices().unwrap();
    assert_eq!(v.len(), 3);
    assert_eq!(v[0].device_id, "usb_001");
    let hdd = c.get_removable_device_scan_result("hdd_001".to_string()).unwrap();
    assert_eq!(hdd.scanned_files, 5000);
    assert_eq!(hdd.end_time, Some(hdd.start_time + 30000));
}
