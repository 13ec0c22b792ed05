use hadron_core::signature::{
    compilation_stats, metadata_section_in_order, parse_meta_line, parse_rule_metadata,
    parse_severity, parse_threat_type, rules_metadata, MatchInstance, SignatureDatabase,
    SignatureMatch,
};
use hadron_core::types::{DetectionMethod, ThreatSeverity, ThreatType};

fn create_test_yara_rule() -> String {
    r#"
rule TestMalware
{
    meta:
        description = "Test malware signature"
        author = "Test Author"
        version = "1.0"
        threat_type = "virus"
        severity = "high"
        tags = "test,malware"
        reference = "https://example.com/malware"

    strings:
        $hex_string = { 4D 5A 90 00 }
        $text_string = "MALWARE"

    condition:
        $hex_string at 0 or $text_string
}

rule TestAdware
{
    meta:
        description = "Test adware signature"
        author = "Test Author"
        version = "1.0"
        threat_type = "adware"
        severity = "low"

    strings:
        $adware_string = "ADWARE_SIGNATURE"

    condition:
        $adware_string
}
"#
    .to_string()
}

fn loaded_db() -> SignatureDatabase {
    let mut db = SignatureDatabase::new("/tmp/signatures/test.yar".to_string());
    let content = create_test_yara_rule();
    let entries = rules_metadata(&content, 100);
    db.install_signatures(entries, 100);
    db
}

#[test]
fn test_signature_database_creation() {
    let db = SignatureDatabase::new("/tmp/signatures.yar".to_string());
    assert!(!db.is_loaded());
    assert_eq!(db.get_version(), "0.0.0");
}

#[test]
fn test_load_signatures() {
    let content = create_test_yara_rule();
    let entries = rules_metadata(&content, 1);
    assert_eq!(entries.len(), 2);
    let stats = compilation_stats(entries.len() as u32, 0, 5, 2048);
    assert_eq!(stats.total_rules, 2);
    assert_eq!(stats.compiled_rules, 2);
    assert_eq!(stats.failed_rules, 0);
    let db = loaded_db();
    assert!(db.is_loaded());
}

#[test]
fn test_metadata_parsing() {
    let db = loaded_db();
    let malware_meta = db.get_signature_metadata("TestMalware").unwrap();
    assert_eq!(malware_meta.description, "Test malware signature");
    assert_eq!(malware_meta.author, "Test Author");
    assert_eq!(malware_meta.version, "1.0");
    assert_eq!(malware_meta.threat_type, ThreatType::Virus);
    assert_eq!(malware_meta.severity, ThreatSeverity::High);
    assert_eq!(malware_meta.tags, vec!["test", "malware"]);
    assert_eq!(malware_meta.references, vec!["https://example.com/malware"]);
    let adware = db.get_signature_metadata("TestAdware").unwrap();
    assert_eq!(adware.threat_type, ThreatType::Adware);
    assert_eq!(adware.severity, ThreatSeverity::Low);
    assert!(adware.tags.is_empty());
    assert!(db.get_signature_metadata("Nope").is_none());
}

#[test]
fn test_database_statistics() {
    let db = loaded_db();
    let stats = db.get_statistics(64);
    assert_eq!(stats.total_signatures, 2);
    assert!(stats.last_update.is_some());
    let get_t = |t: ThreatType| stats.threat_type_distribution.iter().find(|(k, _)| *k == t).map(|(_, c)| *c);
    let get_s = |s: ThreatSeverity| stats.severity_distribution.iter().find(|(k, _)| *k == s).map(|(_, c)| *c);
    assert_eq!(get_t(ThreatType::Virus), Some(1));
    assert_eq!(get_t(ThreatType::Adware), Some(1));
    assert_eq!(get_t(ThreatType::Trojan), None);
    assert_eq!(get_s(ThreatSeverity::High), Some(1));
    assert_eq!(get_s(ThreatSeverity::Low), Some(1));
    assert_eq!(stats.memory_usage_bytes, 64 + 2 * 1024);
    assert_eq!(db.estimate_memory_usage(10), 10 + 2048);
}

#[test]
fn test_matches_to_threats() {
    let db = loaded_db();
    let meta = db.get_signature_metadata("TestMalware").unwrap();
    let matches = vec![SignatureMatch {
        rule_name: "TestMalware".to_string(),
        metadata: meta,
        matches: vec![MatchInstance {
            offset: 0,
            length: 7,
            matched_data: b"MALWARE".to_vec(),
            string_identifier: Some("$text_string".to_string()),
        }],
    }];
    let data = b"MALWARE test file content";
    let threats = db.matches_to_threats(matches, "/tmp/malware.exe", data).unwrap();
    assert!(!threats.is_empty());
    assert_eq!(threats[0].name, "TestMalware");
    assert_eq!(threats[0].threat_type, ThreatType::Virus);
    assert_eq!(threats[0].severity, ThreatSeverity::High);
    assert_eq!(threats[0].detection_method, DetectionMethod::Signature);
    assert_eq!(threats[0].file_hash, db.calculate_file_hash(data));
    assert_eq!(threats[0].file_hash.len(), 64);
}

#[test]
fn later_loads_replace_and_versions_change() {
    let mut db = loaded_db();
    db.set_version("2024.1".to_string());
    assert_eq!(db.get_version(), "2024.1");
    let text = "rule TestMalware {\n meta:\n  severity = \"critical\"\n condition:\n  true\n}\nrule Extra\n{ meta:\n  threat_type = \"Trojan\"\n  reference = \"a\"\n  reference = \"b\"\n}\n";
    let mut all = rules_metadata(&create_test_yara_rule(), 1);
    all.extend(rules_metadata(text, 2));
    db.install_signatures(all, 3);
    let stats = db.get_statistics(0);
    assert_eq!(stats.total_signatures, 3);
    let m = db.get_signature_metadata("TestMalware").unwrap();
    assert_eq!(m.severity, ThreatSeverity::Critical);
    assert_eq!(m.author, "Unknown");
    assert_eq!(m.version, "1.0");
    assert_eq!(m.date, 2);
    let e = db.get_signature_metadata("Extra").unwrap();
    assert_eq!(e.threat_type, ThreatType::Trojan);
    assert_eq!(e.references, vec!["a".to_string(), "b".to_string()]);
}

#[test]
fn rule_lines_and_metadata_sections() {
    let content = "rule NoMeta\n{\n condition:\n  true\n}\n";
    assert!(metadata_section_in_order(content, "rule NoMeta"));
    assert!(parse_rule_metadata(content, "rule NoMeta", 0).is_none());
    assert!(parse_rule_metadata(content, "  condition:", 0).is_none());
    let disordered = "rule A\n{\n strings:\n  $a = \"x\"\n}\nrule B\n{\n meta:\n  author = \"b\"\n}\n";
    assert!(!metadata_section_in_order(disordered, "rule A"));
    assert!(metadata_section_in_order(disordered, "rule B"));
    let m = parse_rule_metadata(disordered, "rule B", 7).unwrap();
    assert_eq!(m.name, "B");
    assert_eq!(m.author, "b");
    let braced = "rule Tight{ meta: author = \"t\" condition: true }";
    let m = parse_rule_metadata(braced, braced, 0).unwrap();
    assert_eq!(m.name, "Tight");
    assert_eq!(m.author, "Unknown");
}

#[test]
fn meta_lines_types_and_severities() {
    assert_eq!(
        parse_meta_line("  description = \"a = b\"  "),
        Some(("description".to_string(), "a = b".to_string()))
    );
    assert_eq!(parse_meta_line("no equals here"), None);
    assert_eq!(parse_meta_line("k=\"\"\"v\"\""), Some(("k".to_string(), "v".to_string())));
    assert_eq!(parse_threat_type("RansomWare"), ThreatType::Ransomware);
    assert_eq!(parse_threat_type("worm"), ThreatType::Unknown);
    assert_eq!(parse_severity("CRITICAL"), ThreatSeverity::Critical);
    assert_eq!(parse_severity("extreme"), ThreatSeverity::Medium);
}

use hadron_core::error::{AntivirusError, ScanEngineError};
use hadron_core::signature::{RuleHit, RulesFileLoad};

fn instance(offset: u64) -> MatchInstance {
    MatchInstance { offset, length: 4, matched_data: vec![0x4D, 0x5A, 0x90, 0x00], string_identifier: Some("$hex_string".to_string()) }
}

#[test]
fn collect_matches_keeps_known_rules() {
    let db = loaded_db();
    let hits = vec![
        RuleHit { identifier: "Unknown".to_string(), strings: vec![instance(1)] },
        RuleHit { identifier: "TestMalware".to_string(), strings: vec![instance(0), instance(8)] },
        RuleHit { identifier: "TestAdware".to_string(), strings: vec![] },
    ];
    let m = db.collect_matches(hits);
    assert_eq!(m.len(), 2);
    assert_eq!(m[0].rule_name, "TestMalware");
    assert_eq!(m[0].metadata.severity, ThreatSeverity::High);
    assert_eq!(m[0].matches.len(), 2);
    assert_eq!(m[0].matches[1].offset, 8);
    assert_eq!(m[1].rule_name, "TestAdware");
}

#[test]
fn scanning_needs_loaded_signatures() {
    let empty = SignatureDatabase::new("/tmp/none".to_string());
    assert_eq!(
        empty.scan_ready(),
        Err(AntivirusError::ScanEngine(ScanEngineError::SignatureDatabaseNotLoaded))
    );
    assert!(loaded_db().scan_ready().is_ok());
}

#[test]
fn load_signatures_counts_accepted_rules_and_failed_files() {
    let content = create_test_yara_rule();
    let mut db = SignatureDatabase::new("/tmp/sigs".to_string());
    let files = vec![
        RulesFileLoad { metadata: rules_metadata(&content, 7), accepted: true },
        RulesFileLoad { metadata: Vec::new(), accepted: false },
    ];
    let stats = db.load_signatures(files, 7, 12, 1000);
    assert_eq!(stats.total_rules, 2);
    assert_eq!(stats.failed_rules, 1);
    assert_eq!(stats.compiled_rules, 1);
    assert_eq!(stats.compilation_time_ms, 12);
    assert_eq!(stats.memory_usage_bytes, 1000 + 2 * 1024);
    assert!(db.is_loaded());
    assert!(db.get_signature_metadata("TestAdware").is_some());
}

#[test]
fn reload_picks_yar_files() {
    let dir = SignatureDatabase::new("/db".to_string());
    let entries = vec!["/db/a.yar".to_string(), "/db/b.txt".to_string(), "/db/c.yar".to_string()];
    assert_eq!(dir.rule_files(true, &entries), vec!["/db/a.yar".to_string(), "/db/c.yar".to_string()]);
    let single = SignatureDatabase::new("/db/rules.yar".to_string());
    assert_eq!(single.rule_files(false, &[]), vec!["/db/rules.yar".to_string()]);
    let other = SignatureDatabase::new("/db/rules.txt".to_string());
    assert!(other.rule_files(false, &[]).is_empty());
}
