use hadron_core::driver::{DriverConfig, DriverHandle, DriverInterface, MiniFilterDriver, ProcessMonitorDriver};
use hadron_core::error::{AntivirusError, EmailScanError};
use hadron_core::mapi_integration::{MapiIntegration, MapiMessage, OutlookConfig};
use hadron_core::traits::{CallbackData, FileSystemFilter, FilterResult, MonitorResult, ProcessMonitor};
use hadron_core::types::ProcessInfo;

fn message(has_attachments: bool, count: u32, recipients: Vec<&str>) -> MapiMessage {
    MapiMessage {
        entry_id: "msg_001".to_string(),
        subject: "Hello".to_string(),
        sender_name: "Test Sender".to_string(),
        sender_email: "sender@example.com".to_string(),
        recipient_emails: recipients.into_iter().map(|r| r.to_string()).collect(),
        received_time: 0,
        message_class: "IPM.Note".to_string(),
        has_attachments,
        attachment_count: count,
    }
}

#[test]
fn test_mapi_integration_creation() {
    let mapi = MapiIntegration::new("/tmp/av".to_string());
    assert!(mapi.outlook_config().enabled);
    assert!(!mapi.has_session());
    let c = mapi.outlook_config();
    assert!(c.monitor_incoming && !c.monitor_outgoing && c.scan_on_receive && c.scan_on_send);
    assert_eq!(c.max_concurrent_scans, 5);
    assert_eq!(c.temp_directory, "/tmp/av");
    assert_eq!(mapi.temp_directory(), "/tmp/av");
}

#[test]
fn test_mapi_session_lifecycle() {
    let mut mapi = MapiIntegration::new("/tmp/av".to_string());
    let session = mapi.initialize_session(Some("TestProfile".to_string())).unwrap();
    assert_eq!(session.profile_name, "TestProfile");
    assert!(session.connected);
    assert!(mapi.has_session());
    assert!(mapi.require_session().is_ok());
    mapi.close_session().unwrap();
    assert!(!mapi.has_session());
    match mapi.require_session() {
        Err(AntivirusError::EmailScanning(EmailScanError::MapiInitializationFailed(m))) => {
            assert_eq!(m, "No active MAPI session")
        }
        other => panic!("unexpected {:?}", other),
    }
}

#[test]
fn sessions_default_profile_and_disabled_integration() {
    let mut mapi = MapiIntegration::new("/tmp/av".to_string());
    assert_eq!(mapi.initialize_session(None).unwrap().profile_name, "Default");
    let mut config = OutlookConfig::with_temp_directory("/tmp/x".to_string());
    config.enabled = false;
    let mut off = MapiIntegration::with_config(config);
    match off.initialize_session(None) {
        Err(AntivirusError::EmailScanning(EmailScanError::MapiInitializationFailed(m))) => {
            assert_eq!(m, "MAPI integration disabled")
        }
        other => panic!("unexpected {:?}", other),
    }
    assert!(!off.has_session());
}

#[test]
fn attachment_file_names() {
    assert_eq!(MapiIntegration::sanitize_name("a/b\\c:d*e?f\"g<h>i|j.txt"), "a_b_c_d_e_f_g_h_i_j.txt");
    let mapi = MapiIntegration::new("/tmp/av".to_string());
    assert_eq!(mapi.temp_filename_at("re:port.pdf", 1700), "/tmp/av/1700_re_port.pdf");
    let slash = MapiIntegration::new("/tmp/av/".to_string());
    assert_eq!(slash.temp_filename_at("x", 5), "/tmp/av/5_x");
    let empty = MapiIntegration::new(String::new());
    assert_eq!(empty.temp_filename_at("x", 5), "5_x");
}

#[test]
fn attachment_descriptors_follow_the_message() {
    let mapi = MapiIntegration::new("/tmp/av".to_string());
    let m = message(true, 2, vec!["user@company.com", "b@c"]);
    let atts = mapi.attachment_descriptors(&m, vec!["/tmp/av/1".to_string(), "/tmp/av/2".to_string()]);
    assert_eq!(atts.len(), 2);
    assert_eq!(atts[1].filename, "attachment_1.bin");
    assert_eq!(atts[1].temp_path, "/tmp/av/2");
    assert_eq!(atts[0].size, 25);
    assert_eq!(atts[0].recipient, "user@company.com");
    assert_eq!(atts[0].email_subject, "Hello");
    assert_eq!(atts[0].content_type, "application/octet-stream");
    let none = mapi.attachment_descriptors(&message(true, 1, vec![]), vec!["/p".to_string()]);
    assert_eq!(none[0].recipient, "unknown");
    assert!(mapi.attachment_descriptors(&message(false, 0, vec![]), vec![]).is_empty());
}

#[test]
fn driver_interface_lifecycle() {
    let mut d = DriverInterface::new();
    assert!(d.connect().is_ok());
    let config = DriverConfig {
        enable_realtime_protection: true,
        scan_on_access: true,
        scan_on_write: false,
        max_file_size_mb: 10,
        excluded_extensions: vec![],
        excluded_paths: vec![],
    };
    assert!(d.update_driver_config(&config).is_ok());
    let (a, b) = d.get_driver_status().unwrap();
    assert!(a.is_loaded && b.is_loaded);
    assert_eq!(a.version, "1.0.0");
    assert_eq!(a.files_scanned, 0);
    assert!(d.disconnect().is_ok());
    let h = DriverHandle::new("\\\\.\\AvFilter".to_string());
    assert_eq!(h.device_name(), "\\\\.\\AvFilter");
}

#[test]
fn filter_and_monitor_allow_everything() {
    let f = MiniFilterDriver::new("AvFilter".to_string(), "320000".to_string());
    assert!(f.initialize().is_ok());
    let cb = CallbackData { file_path: "/x".to_string(), process_id: 1, operation_type: "read".to_string(), flags: 0 };
    assert!(matches!(f.pre_create(&cb), FilterResult::Allow));
    assert!(matches!(f.pre_read(&cb), FilterResult::Allow));
    assert!(f.shutdown().is_ok());
    let p = ProcessMonitorDriver::new("AvMon".to_string());
    assert!(p.initialize().is_ok());
    let info = ProcessInfo {
        process_id: 4,
        parent_process_id: 1,
        process_name: "a".to_string(),
        executable_path: "/bin/a".to_string(),
        command_line: "a".to_string(),
        creation_time: 0,
    };
    assert!(matches!(p.on_process_create(&info), MonitorResult::Monitor));
    assert!(p.shutdown().is_ok());
}
