use hadron_core::heuristic::{ImportFunction, PESection};
use hadron_core::pe_analyzer::AdvancedPEAnalyzer;

fn pe_bytes() -> Vec<u8> {
    let mut pe_content = vec![0u8; 64];
    pe_content[0] = 0x4D;
    pe_content[1] = 0x5A;
    pe_content[60] = 60;
    pe_content.extend_from_slice(&[0x50, 0x45, 0x00, 0x00]);
    pe_content
}

fn section(name: &str, entropy: f64, x: bool, w: bool) -> PESection {
    PESection {
        name: name.to_string(),
        virtual_size: 0x1000,
        raw_size: 0x1000,
        characteristics: 0x60000020,
        entropy: entropy.to_bits(),
        is_executable: x,
        is_writable: w,
        is_suspicious: false,
    }
}

#[test]
fn test_pe_analyzer_creation() {
    let analyzer = AdvancedPEAnalyzer::new();
    assert!(analyzer.import_library_count() > 0);
    assert!(analyzer.packer_signature_count() > 0);
}

#[test]
fn pe_content_is_analysed() {
    let analyzer = AdvancedPEAnalyzer::new();
    let result = analyzer.analyze_pe_content(&pe_bytes(), 6.0f64.to_bits(), 4.0f64.to_bits());
    assert!(result.is_pe);
}

#[test]
fn test_non_pe_file() {
    let analyzer = AdvancedPEAnalyzer::new();
    let result = analyzer.analyze_pe_content(b"This is not a PE file", 0, 0);
    assert!(!result.is_pe);
    assert!(result.sections.is_empty());
    assert!(result.imports.is_empty());
}

#[test]
fn test_signature_detection() {
    let analyzer = AdvancedPEAnalyzer::new();
    let content = b"This contains UPX! signature in the middle";
    let pos = analyzer.find_signature(content, b"UPX!");
    assert!(pos.is_some());
    assert_eq!(pos.unwrap(), 14);
}

#[test]
fn test_suspicious_section_detection() {
    let analyzer = AdvancedPEAnalyzer::new();
    let mut suspicious_section = section(".packed", 7.5, true, true);
    suspicious_section.characteristics = 0xE0000020;
    assert!(analyzer.is_section_suspicious(&suspicious_section));
    let normal_section = section(".text", 5.0, true, false);
    assert!(!analyzer.is_section_suspicious(&normal_section));
}

#[test]
fn signatures_are_found_at_their_first_place() {
    let analyzer = AdvancedPEAnalyzer::new();
    assert_eq!(analyzer.find_signature(b"abab", b"ab"), Some(0));
    assert_eq!(analyzer.find_signature(b"xxab", b"ab"), Some(2));
    assert_eq!(analyzer.find_signature(b"a", b"ab"), None);
    assert_eq!(analyzer.find_signature(b"", b"ab"), None);
}

#[test]
fn section_suspicion_rules() {
    let a = AdvancedPEAnalyzer::new();
    assert!(a.is_section_suspicious(&section(".text", 7.01, true, false)));
    assert!(!a.is_section_suspicious(&section(".text", 7.0, true, false)));
    assert!(a.is_section_suspicious(&section(".data", 1.0, true, true)));
    assert!(a.is_section_suspicious(&section("UPX0.UPX", 1.0, false, false)));
    assert!(a.is_section_suspicious(&section(".VMP1", 1.0, false, false)));
    assert!(!a.is_section_suspicious(&section(".rsrc", 1.0, false, true)));
}

#[test]
fn packers_by_signature_name_or_entropy() {
    let a = AdvancedPEAnalyzer::new();
    let plain = vec![section(".text", 5.0, true, false), section(".data", 4.0, false, true)];
    assert_eq!(a.detect_packer(b"nothing here", &plain), (false, None));
    let (packed, name) = a.detect_packer(b"...UPX!...", &plain);
    assert!(packed);
    assert!(name.is_some());
    let hot = vec![section(".a", 7.5, true, false), section(".b", 7.9, false, true)];
    assert_eq!(a.detect_packer(b"nothing here", &hot), (true, Some("Unknown Packer".to_string())));
}

#[test]
fn code_caves_are_long_zero_or_nop_runs_in_executable_sections() {
    let a = AdvancedPEAnalyzer::new();
    let mut content = vec![1u8; 10];
    content.extend(vec![0x90u8; 40]);
    content.push(7);
    content.extend(vec![0u8; 31]);
    content.push(7);
    let caves = a.detect_code_caves(&content, &[section(".text", 5.0, true, false)]);
    assert_eq!(caves.len(), 1);
    assert_eq!(caves[0].offset, 10);
    assert_eq!(caves[0].size, 40);
    assert_eq!(caves[0].section, ".text");
    assert!(a.detect_code_caves(&content, &[section(".data", 5.0, false, true)]).is_empty());
}

#[test]
fn characteristics_summarise_sections_and_imports() {
    let a = AdvancedPEAnalyzer::new();
    let mut s1 = section(".x", 7.5, true, true);
    s1.is_suspicious = true;
    let imports = vec![ImportFunction {
        dll: "kernel32.dll".to_string(),
        function: "CreateRemoteThread".to_string(),
        is_suspicious: true,
        risk_level: 9,
    }];
    let c = a.analyze_suspicious_characteristics(&[s1], &imports);
    assert_eq!(
        c,
        vec![
            "Contains 1 suspicious sections".to_string(),
            "Contains 1 high-risk API imports".to_string(),
            "Contains executable and writable sections".to_string(),
            "Contains 1 high entropy sections (possible packing)".to_string(),
        ]
    );
    assert!(a.analyze_suspicious_characteristics(&[], &[]).is_empty());
}

#[test]
fn fixed_tables_of_the_analyzer() {
    let a = AdvancedPEAnalyzer::new();
    let imports = a.parse_imports();
    assert!(imports.iter().any(|i| i.dll == "kernel32.dll" && i.function == "CreateRemoteThread"));
    assert!(imports.iter().all(|i| i.is_suspicious));
    let exports = a.parse_exports();
    assert_eq!(exports.len(), 1);
    assert_eq!(exports[0].function, "DllMain");
    let resources = a.parse_resources();
    assert_eq!(resources[0].resource_type, "RT_ICON");
    assert_eq!(f64::from_bits(resources[0].entropy), 6.5);
    assert_eq!(a.calculate_overlay_size(b"abc"), 0);
    let sections = a.parse_sections(6.0f64.to_bits(), 7.5f64.to_bits());
    assert_eq!(sections[0].name, ".text");
    assert!(!sections[0].is_suspicious);
    assert!(sections[1].is_suspicious);
}

#[test]
fn pe_analyzer_test_pe_file_detection() {
    let mut pe_content = vec![0u8; 64];
    pe_content[0] = 0x4D;
    pe_content[1] = 0x5A;
    pe_content[60] = 60;
    pe_content.extend_from_slice(&[0x50, 0x45, 0x00, 0x00]);
    let analyzer = AdvancedPEAnalyzer::new();
    let result = analyzer.analyze_pe_content(&pe_content, 0, 0);
    assert!(result.is_pe);
}

#[test]
fn pe_header_found_at_its_offset() {
    let mut c = vec![0u8; 128];
    c[0] = 0x4D;
    c[1] = 0x5A;
    c[60] = 100;
    c[100..104].copy_from_slice(&[0x50, 0x45, 0x00, 0x00]);
    assert!(AdvancedPEAnalyzer::new().is_pe_file(&c));
    c[60] = 96;
    assert!(!AdvancedPEAnalyzer::new().is_pe_file(&c));
}

#[test]
fn small_header_offsets_are_read_as_given() {
    let mut c = vec![0u8; 68];
    c[0] = 0x4D;
    c[1] = 0x5A;
    c[60] = 4;
    c[4..8].copy_from_slice(&[0x50, 0x45, 0x00, 0x00]);
    assert!(AdvancedPEAnalyzer::new().is_pe_file(&c));
    c[60] = 8;
    assert!(!AdvancedPEAnalyzer::new().is_pe_file(&c));
}
