use hadron_core::memory_scanner::{
    MemoryProtection, MemoryRegion, MemoryRegionType, MemoryScanConfig, MemoryScanResult,
    MemoryScanStats, MemoryScanner, MemorySignature, RootkitDetector, RootkitDetectorType,
};
use hadron_core::types::{DetectionMethod, ThreatInfo, ThreatSeverity, ThreatType};

fn signature(id: &str, pattern: Vec<u8>, mask: Vec<u8>, c: &str) -> MemorySignature {
    let threat_info = ThreatInfo::new(
        "Test Memory Threat".to_string(),
        ThreatType::Virus,
        ThreatSeverity::High,
        "memory://test".to_string(),
        c.repeat(64),
        DetectionMethod::Signature,
    )
    .unwrap();
    MemorySignature {
        id: id.to_string(),
        pattern,
        mask,
        threat_info,
        min_offset: 0,
        max_offset: None,
    }
}

fn region(p: MemoryProtection, t: MemoryRegionType, size: usize, module: Option<&str>) -> MemoryRegion {
    MemoryRegion {
        base_address: 0x10000000,
        size,
        protection: p,
        region_type: t,
        module_name: module.map(|m| m.to_string()),
    }
}

#[test]
fn test_memory_scanner_creation() {
    let scanner = MemoryScanner::new();
    assert_eq!(scanner.signature_patterns.len(), 0);
    assert_eq!(scanner.rootkit_detectors.len(), 6);
}

#[test]
fn test_memory_scanner_basic_functionality() {
    let mut scanner = MemoryScanner::new();
    assert_eq!(scanner.signature_patterns.len(), 0);
    assert_eq!(scanner.rootkit_detectors.len(), 6);
    let mut sig = signature("test_memory_sig", vec![0x4D, 0x5A], vec![0xFF, 0xFF], "a");
    sig.max_offset = Some(1024);
    scanner.add_signature(sig);
    assert_eq!(scanner.signature_patterns.len(), 1);
}

#[test]
fn test_signature_matching() {
    let scanner = MemoryScanner::new();
    let pattern = vec![0x4D, 0x5A, 0x90, 0x00];
    let mask = vec![0xFF, 0xFF, 0xFF, 0xFF];
    let data = vec![0x00, 0x00, 0x4D, 0x5A, 0x90, 0x00, 0x03, 0x00];
    assert_eq!(scanner.find_pattern(&data, &pattern, &mask), Some(2));
}

#[test]
fn test_memory_scanner_pattern_matching() {
    let scanner = MemoryScanner::new();
    let data = vec![0x00, 0x00, 0xDE, 0xAD, 0xBE, 0xEF, 0x00, 0x00];
    assert_eq!(scanner.find_pattern(&data, &[0xDE, 0xAD, 0xBE, 0xEF], &[0xFF, 0xFF, 0xFF, 0xFF]), Some(2));
    let data2 = vec![0x00, 0x00, 0xDE, 0xFF, 0xBE, 0xEF, 0x00, 0x00];
    assert_eq!(scanner.find_pattern(&data2, &[0xDE, 0x00, 0xBE, 0xEF], &[0xFF, 0x00, 0xFF, 0xFF]), Some(2));
    assert_eq!(scanner.find_pattern(&data, &[0xCA, 0xFE, 0xBA, 0xBE], &[0xFF, 0xFF, 0xFF, 0xFF]), None);
}

#[test]
fn test_memory_region_suspicion() {
    let scanner = MemoryScanner::new();
    assert!(scanner.is_suspicious_memory_region(&region(
        MemoryProtection::ExecuteReadWrite,
        MemoryRegionType::Heap,
        1024,
        None
    )));
    assert!(!scanner.is_suspicious_memory_region(&region(
        MemoryProtection::ExecuteRead,
        MemoryRegionType::Image,
        1024,
        Some("test.exe")
    )));
}

#[test]
fn test_memory_scanner_suspicious_region_detection() {
    let scanner = MemoryScanner::new();
    assert!(scanner.is_suspicious_memory_region(&region(
        MemoryProtection::ExecuteRead,
        MemoryRegionType::Private,
        20 * 1024 * 1024,
        None
    )));
    assert!(!scanner.is_suspicious_memory_region(&region(
        MemoryProtection::ReadWrite,
        MemoryRegionType::Private,
        20 * 1024 * 1024,
        None
    )));
}

#[test]
fn test_memory_scanner_process_scan() {
    let mut scanner = MemoryScanner::new();
    scanner.add_signature(signature("pe_header_test", vec![0x4D, 0x5A, 0x90, 0x00], vec![0xFF; 4], "b"));
    let scan_result = scanner.scan_process_memory(1234).unwrap();
    assert_eq!(scan_result.process_id, 1234);
    assert_eq!(scan_result.process_name, "process_1234.exe");
    assert!(scan_result.scan_stats.regions_scanned > 0);
    assert!(scan_result.scan_stats.bytes_scanned > 0);
    assert!(scan_result.scan_stats.signature_matches > 0);
    assert_eq!(scan_result.threats_found.len() as u64, scan_result.scan_stats.signature_matches);
}

#[test]
fn test_process_memory_scan() {
    let mut scanner = MemoryScanner::new();
    scanner.add_signature(signature("test_sig_1", vec![0x4D, 0x5A, 0x90, 0x00], vec![0xFF; 4], "a"));
    let result = scanner.scan_process_memory(1234);
    assert!(result.is_ok());
    assert_eq!(result.unwrap().process_id, 1234);
}

#[test]
fn test_memory_scanner_scan_result_conversion() {
    let scanner = MemoryScanner::new();
    let memory_result = MemoryScanResult {
        process_id: 1234,
        process_name: "test.exe".to_string(),
        threats_found: vec![],
        rootkit_indicators: vec![],
        scan_stats: MemoryScanStats::default(),
        scan_duration_ms: 1000,
    };
    let scan_result = scanner.to_scan_result(memory_result);
    assert!(scan_result.scan_id != 0);
    assert_eq!(scan_result.scanned_files, 0);
    assert!(scan_result.threats_found.is_empty());
}

#[test]
fn test_memory_scanner_all_processes() {
    let mut scanner = MemoryScanner::new();
    let scan_results = scanner.scan_all_processes().unwrap();
    assert!(!scan_results.is_empty());
    for result in scan_results {
        assert!(result.process_id > 0);
        assert!(!result.process_name.is_empty());
        assert!(result.scan_stats.regions_scanned > 0);
    }
}

#[test]
fn scans_without_detection_steps() {
    let config = MemoryScanConfig {
        enable_rootkit_detection: false,
        enable_heuristic_analysis: false,
        ..MemoryScanConfig::default()
    };
    let mut scanner = MemoryScanner::with_config(config);
    let r = scanner.scan_process_memory(42).unwrap();
    assert!(r.rootkit_indicators.is_empty());
    assert!(r.threats_found.is_empty());
    assert_eq!(r.scan_stats.heuristic_detections, 0);
}

#[test]
fn default_detectors_and_config() {
    let scanner = MemoryScanner::new();
    let kinds: Vec<RootkitDetectorType> = scanner.rootkit_detectors.iter().map(|d| d.detector_type).collect();
    assert_eq!(
        kinds,
        vec![
            RootkitDetectorType::HiddenProcess,
            RootkitDetectorType::SsdtHook,
            RootkitDetectorType::InlineHook,
            RootkitDetectorType::DllInjection,
            RootkitDetectorType::ProcessHollowing,
            RootkitDetectorType::MemoryPatching,
        ]
    );
    let c = MemoryScanConfig::default();
    assert_eq!(c.max_region_size, 100 * 1024 * 1024);
    assert_eq!(c.scan_timeout_seconds, 30);
    assert_eq!(c.max_concurrent_scans, 4);
}

#[test]
fn signatures_load_in_order() {
    let mut scanner = MemoryScanner::new();
    let sigs = vec![
        signature("a", vec![1], vec![0xFF], "a"),
        signature("b", vec![2], vec![0xFF], "b"),
    ];
    assert!(scanner.load_signatures(sigs).is_ok());
    let ids: Vec<&str> = scanner.signature_patterns.iter().map(|s| s.id.as_str()).collect();
    assert_eq!(ids, vec!["a", "b"]);
}

#[test]
fn rootkit_detectors_report_periodically() {
    let scanner = MemoryScanner::new();
    let d = &scanner.rootkit_detectors[0];
    let hits: Vec<bool> = (0..20u64).map(|t| scanner.run_rootkit_detector(d, t).is_some()).collect();
    assert_eq!(hits.iter().filter(|h| **h).count(), 2);
}

#[test]
fn rootkit_indicator_details() {
    let scanner = MemoryScanner::new();
    let d = RootkitDetector {
        name: "Hidden".to_string(),
        detector_type: RootkitDetectorType::HiddenProcess,
        severity: ThreatSeverity::High,
    };
    let ind = scanner.run_rootkit_detector(&d, 20).unwrap();
    assert_eq!(
        ind.details,
        vec![
            ("detection_method".to_string(), "PEB_vs_EPROCESS".to_string()),
            ("hidden_pid".to_string(), "1234".to_string()),
        ]
    );
    assert!(scanner.run_rootkit_detector(&d, 21).is_none());
}

#[test]
fn rootkit_indicators_follow_detector_order() {
    let mut scanner = MemoryScanner::new();
    let r = scanner.scan_process_memory(77).unwrap();
    let kinds: Vec<RootkitDetectorType> = scanner.rootkit_detectors.iter().map(|d| d.detector_type).collect();
    let mut last: Option<usize> = None;
    for ind in &r.rootkit_indicators {
        let pos = kinds.iter().position(|k| *k == ind.indicator_type).unwrap();
        if let Some(p) = last {
            assert!(pos > p);
        }
        last = Some(pos);
        assert_eq!(ind.severity, scanner.rootkit_detectors[pos].severity);
        assert!(ind.memory_address.is_some());
        assert!(!ind.description.is_empty());
    }
    assert!(r.rootkit_indicators.len() <= kinds.len());
}
