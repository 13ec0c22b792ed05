use hadron_core::sandbox::{AnalysisDepth, BehaviorEvent, BehaviorEventType, SandboxConfig, SandboxEngine};

fn event(t: BehaviorEventType, details: &[(&str, &str)]) -> BehaviorEvent {
    BehaviorEvent {
        timestamp: 1_700_000_000_000,
        event_type: t,
        process_id: 1234,
        details: details.iter().map(|(k, v)| (k.to_string(), v.to_string())).collect(),
    }
}

fn malicious_and_benign(engine: &SandboxEngine) {
    let events = vec![
        event(
            BehaviorEventType::RegistryKeyModified,
            &[("key_path", "HKLM\\Software\\Microsoft\\Windows\\CurrentVersion\\Run")],
        ),
        event(
            BehaviorEventType::FileCreated,
            &[("file_path", "C:\\Windows\\System32\\malware.exe")],
        ),
    ];
    assert!(engine.analyze_malicious_behavior(&events));
    let benign_events = vec![event(
        BehaviorEventType::FileCreated,
        &[("file_path", "C:\\Users\\Test\\Documents\\file.txt")],
    )];
    assert!(!engine.analyze_malicious_behavior(&benign_events));
}

#[test]
fn sandbox_test_malicious_behavior_analysis() {
    malicious_and_benign(&SandboxEngine::new());
}

#[test]
fn sandbox_integration_tests_test_malicious_behavior_analysis() {
    let engine = SandboxEngine::new();
    malicious_and_benign(&engine);
}

#[test]
fn test_sandbox_config() {
    let config = SandboxConfig {
        timeout_seconds: 60,
        max_memory_mb: 256,
        enable_network: true,
        analysis_depth: AnalysisDepth::Deep,
        ..Default::default()
    };
    let engine = SandboxEngine::with_config(config.clone());
    assert_eq!(engine.default_config().timeout_seconds, 60);
    assert_eq!(engine.default_config().max_memory_mb, 256);
    assert!(engine.default_config().enable_network);
}

#[test]
fn default_confinement() {
    let c = SandboxEngine::new().default_config();
    assert_eq!(c.timeout_seconds, 300);
    assert_eq!(c.max_memory_mb, 512);
    assert_eq!(f32::from_bits(c.max_cpu_percent), 50.0);
    assert!(!c.enable_network);
    assert!(c.redirect_filesystem);
    assert!(c.monitor_registry);
    assert!(!c.capture_screenshots);
}

#[test]
fn scores_add_up_to_the_threshold() {
    let engine = SandboxEngine::new();
    let tor = event(BehaviorEventType::NetworkConnection, &[("destination", "exit.tor.example")]);
    assert!(engine.analyze_malicious_behavior(&[tor.clone()]));
    let plain = event(BehaviorEventType::NetworkConnection, &[("destination", "example.com")]);
    assert!(!engine.analyze_malicious_behavior(&vec![plain.clone(); 5]));
    assert!(engine.analyze_malicious_behavior(&vec![plain; 6]));
    let temp_exe = event(BehaviorEventType::FileCreated, &[("file_path", "C:\\Temp\\a.exe")]);
    let policies = event(
        BehaviorEventType::RegistryKeyModified,
        &[("key_path", "HKLM\\Software\\Windows\\CurrentVersion\\Policies\\X")],
    );
    assert!(!engine.analyze_malicious_behavior(&[temp_exe.clone(), policies.clone()]));
    assert!(engine.analyze_malicious_behavior(&[temp_exe.clone(), policies, temp_exe]));
    assert!(!engine.analyze_malicious_behavior(&[]));
}

#[test]
fn execution_reports_collect_operations() {
    let engine = SandboxEngine::new();
    let events = vec![
        event(
            BehaviorEventType::NetworkConnection,
            &[("destination", "10.0.0.1"), ("port", "443"), ("protocol", "tcp"), ("bytes_sent", "12")],
        ),
        event(BehaviorEventType::FileDeleted, &[("file_path", "/tmp/x"), ("success", "true")]),
        event(
            BehaviorEventType::RegistryKeyCreated,
            &[("key_path", "HKCU\\Software\\A"), ("value_name", "v")],
        ),
        event(BehaviorEventType::ProcessCreated, &[]),
    ];
    let report = engine.analyze_execution_results(9, None, &events, 1500);
    assert_eq!(report.sandbox_id, 9);
    assert_eq!(report.exit_code, -1);
    assert_eq!(report.execution_time_ms, 1500);
    assert_eq!(
        report.behaviors_observed,
        vec![
            "NetworkConnection: {\"destination\": \"10.0.0.1\", \"port\": \"443\", \"protocol\": \"tcp\", \"bytes_sent\": \"12\"}".to_string(),
            "FileDeleted: {\"file_path\": \"/tmp/x\", \"success\": \"true\"}".to_string(),
            "RegistryKeyCreated: {\"key_path\": \"HKCU\\\\Software\\\\A\", \"value_name\": \"v\"}".to_string(),
            "ProcessCreated: {}".to_string(),
        ]
    );
    assert_eq!(report.network_activity.len(), 1);
    assert_eq!(report.network_activity[0].destination, "10.0.0.1");
    assert_eq!(report.network_activity[0].port, 443);
    assert_eq!(report.network_activity[0].bytes_sent, 12);
    assert_eq!(report.network_activity[0].bytes_received, 0);
    assert_eq!(report.file_operations.len(), 1);
    assert_eq!(report.file_operations[0].operation, "FileDeleted");
    assert!(report.file_operations[0].success);
    assert_eq!(report.registry_operations.len(), 1);
    assert_eq!(report.registry_operations[0].value_name, Some("v".to_string()));
    assert!(report.registry_operations[0].success);
    assert!(!report.is_malicious);
    let report = engine.analyze_execution_results(9, Some(3), &events, 1);
    assert_eq!(report.exit_code, 3);
}

use hadron_core::error::AntivirusError;
use hadron_core::sandbox::SandboxInstance;

fn not_found(e: AntivirusError) -> bool {
    e == AntivirusError::Internal("Sandbox not found".to_string())
}

#[test]
fn test_sandbox_creation() {
    let mut engine = SandboxEngine::new();
    let id = engine.create_sandbox(11, 1_000, "/tmp/sb/11".to_string());
    assert_eq!(id, 11);
    let status = engine.get_sandbox_status(id).unwrap();
    assert!(!status.is_running);
    assert_eq!(status.start_time, 1_000);
    assert!(engine.destroy_sandbox(id).is_ok());
}

#[test]
fn test_sandbox_creation_and_destruction() {
    let mut engine = SandboxEngine::new();
    let id = engine.create_sandbox(1, 5, "/tmp/sb/1".to_string());
    let status = engine.get_sandbox_status(id).unwrap();
    assert!(!status.is_running);
    engine.destroy_sandbox(id).unwrap();
    assert!(not_found(engine.get_sandbox_status(id).unwrap_err()));
}

#[test]
fn test_sandbox_with_custom_config() {
    let config = SandboxConfig {
        timeout_seconds: 60,
        max_memory_mb: 256,
        enable_network: true,
        analysis_depth: AnalysisDepth::Deep,
        ..Default::default()
    };
    let mut engine = SandboxEngine::with_config(config);
    let id = engine.create_sandbox(2, 5, "/tmp/sb/2".to_string());
    assert!(!engine.get_sandbox_status(id).unwrap().is_running);
    assert_eq!(engine.sandbox_config(id).unwrap().timeout_seconds, 60);
    engine.destroy_sandbox(id).unwrap();
}

#[test]
fn test_multiple_sandboxes() {
    let mut engine = SandboxEngine::new();
    let s1 = engine.create_sandbox(1, 0, "/tmp/a".to_string());
    let s2 = engine.create_sandbox(2, 0, "/tmp/b".to_string());
    let s3 = engine.create_sandbox(3, 0, "/tmp/c".to_string());
    assert!(engine.get_sandbox_status(s1).is_ok());
    assert!(engine.get_sandbox_status(s2).is_ok());
    assert!(engine.get_sandbox_status(s3).is_ok());
    engine.destroy_sandbox(s1).unwrap();
    engine.destroy_sandbox(s2).unwrap();
    engine.destroy_sandbox(s3).unwrap();
    assert!(engine.get_sandbox_status(s1).is_err());
    assert!(engine.get_sandbox_status(s2).is_err());
    assert!(engine.get_sandbox_status(s3).is_err());
}

#[test]
fn sandbox_redirections_and_paths() {
    let mut engine = SandboxEngine::new();
    let id = engine.create_sandbox(9, 0, "/tmp/sb/9".to_string());
    assert_eq!(engine.get_sandbox_temp_dir(id).unwrap(), "/tmp/sb/9/temp");
    assert_eq!(engine.get_sandbox_target_path(id).unwrap(), "/tmp/sb/9/target_executable.exe");
    let s = engine.destroy_sandbox(id).unwrap();
    assert_eq!(s.redirected_paths.len(), 3);
    assert!(s
        .redirected_paths
        .contains(&("C:\\Windows\\Temp".to_string(), "/tmp/sb/9/temp".to_string())));
    assert!(s
        .redirected_paths
        .contains(&("C:\\Users\\Public".to_string(), "/tmp/sb/9/files/public".to_string())));
    assert!(s
        .redirected_paths
        .contains(&("C:\\ProgramData".to_string(), "/tmp/sb/9/files/programdata".to_string())));
}

#[test]
fn sandbox_without_redirection() {
    let config = SandboxConfig { redirect_filesystem: false, ..Default::default() };
    let mut engine = SandboxEngine::with_config(config);
    let id = engine.create_sandbox(4, 0, "/tmp/sb/4".to_string());
    let s = engine.destroy_sandbox(id).unwrap();
    assert!(s.redirected_paths.is_empty());
}

#[test]
fn sandbox_running_state() {
    let mut engine = SandboxEngine::new();
    let id = engine.create_sandbox(5, 0, "/tmp/sb/5".to_string());
    engine.start_execution(id).unwrap();
    assert!(engine.get_sandbox_status(id).unwrap().is_running);
    engine.finish_execution(id);
    assert!(!engine.get_sandbox_status(id).unwrap().is_running);
    assert!(not_found(engine.start_execution(99).unwrap_err()));
    engine.start_execution(id).unwrap();
    let s = engine.destroy_sandbox(id).unwrap();
    assert!(!s.is_running);
    assert!(not_found(engine.destroy_sandbox(id).unwrap_err()));
}

#[test]
fn sandbox_instance_events_and_usage() {
    let mut s = SandboxInstance::new(SandboxConfig::default(), 7, 100, "/tmp/sb/7".to_string());
    assert!(s.get_behavior_events().is_empty());
    s.add_behavior_event(event(BehaviorEventType::FileCreated, &[("file_path", "x")]));
    let events = s.get_behavior_events();
    assert_eq!(events.len(), 1);
    assert_eq!(events[0].details[0].1, "x");
    let mut usage = s.get_resource_usage();
    assert_eq!(usage.memory_mb, 0);
    usage.memory_mb = 42;
    s.update_resource_usage(usage);
    assert_eq!(s.get_resource_usage().memory_mb, 42);
    s.setup_filesystem_redirection();
    assert_eq!(s.redirected_paths.len(), 3);
}

#[test]
fn sandbox_events_of_unknown_sandbox_are_empty() {
    let engine = SandboxEngine::new();
    assert!(engine.behavior_events_of(3).is_empty());
}

#[test]
fn verdict_survives_more_events_and_any_order() {
    let engine = SandboxEngine::new();
    let mut events = vec![
        event(BehaviorEventType::ServiceInstalled, &[]),
        event(BehaviorEventType::ScheduledTaskCreated, &[]),
    ];
    assert!(engine.analyze_malicious_behavior(&events));
    events.push(event(BehaviorEventType::FileCreated, &[("file_path", "/home/a.txt")]));
    assert!(engine.analyze_malicious_behavior(&events));
    events.reverse();
    assert!(engine.analyze_malicious_behavior(&events));
    let few = vec![
        event(BehaviorEventType::ProcessCreated, &[]),
        event(BehaviorEventType::ScheduledTaskCreated, &[]),
        event(BehaviorEventType::NetworkConnection, &[("destination", "10.0.0.1")]),
    ];
    assert!(!engine.analyze_malicious_behavior(&few));
    let mut reordered = few.clone();
    reordered.swap(0, 2);
    assert!(!engine.analyze_malicious_behavior(&reordered));
}
