use hadron_core::file_utils::FileInfo;
use hadron_core::heuristic::{
    BehaviorAnalysisResult, BehaviorAnalyzer, EntropyAnalysisResult, EntropyAnalyzer,
    HeuristicAnalyzer, HeuristicCondition, HeuristicResult, HeuristicRule, PEAnalyzer,
    RuleMatch, StringAnalysisResult, StringAnalyzer, ONE_F32,
};
use hadron_core::heuristic::threat_level_for;
use hadron_core::types::{DetectionMethod, ThreatSeverity, ThreatType};

fn file(ext: Option<&str>, size: u64) -> FileInfo {
    FileInfo {
        path: "/tmp/test.exe".to_string(),
        size,
        modified: 0,
        created: 0,
        is_executable: true,
        extension: ext.map(|e| e.to_string()),
        mime_type: None,
    }
}

fn entropy(e: f64) -> EntropyAnalysisResult {
    EntropyAnalyzer::new().entropy_result(e.to_bits(), e.to_string(), ((e / 8.0) as f32).to_bits())
}

fn strings_of(text: &[u8]) -> StringAnalysisResult {
    let a = StringAnalyzer::new();
    let strings = a.extract_strings(text, 4);
    StringAnalysisResult {
        suspicious_strings: a.identify_suspicious_strings(&strings),
        crypto_strings: a.identify_crypto_strings(&strings),
        network_strings: a.identify_network_strings(&strings),
        file_strings: a.identify_file_strings(&strings),
        registry_strings: a.identify_registry_strings(&strings),
        string_score: 0,
    }
}

fn rule(id: &str, conditions: Vec<HeuristicCondition>) -> HeuristicRule {
    HeuristicRule {
        id: id.to_string(),
        name: "Custom Test Rule".to_string(),
        description: "Custom test description".to_string(),
        severity: ThreatSeverity::Medium,
        threat_type: ThreatType::Suspicious,
        conditions,
        weight: 0.5f32.to_bits(),
        enabled: true,
    }
}

#[test]
fn test_heuristic_analyzer_creation() {
    let analyzer = HeuristicAnalyzer::new();
    assert!(!analyzer.get_rules().is_empty());
    let ids: Vec<&str> = analyzer.get_rules().iter().map(|r| r.id.as_str()).collect();
    assert_eq!(ids, vec!["HEUR_001", "HEUR_002", "HEUR_003", "HEUR_004", "HEUR_005"]);
}

#[test]
fn test_rule_management() {
    let mut analyzer = HeuristicAnalyzer::new();
    let initial_count = analyzer.get_rules().len();
    let custom_rule = rule(
        "CUSTOM_001",
        vec![HeuristicCondition::FileExtension { extensions: vec!["test".to_string()] }],
    );
    analyzer.add_rule(custom_rule);
    assert_eq!(analyzer.get_rules().len(), initial_count + 1);

    analyzer.set_rule_enabled("CUSTOM_001", false);
    let r = analyzer.get_rules().iter().find(|r| r.id == "CUSTOM_001").unwrap();
    assert!(!r.enabled);

    analyzer.remove_rule("CUSTOM_001");
    assert_eq!(analyzer.get_rules().len(), initial_count);
}

#[test]
fn test_string_analysis() {
    let result = strings_of(b"This file contains cmd.exe and powershell.exe and keylog functionality");
    assert!(!result.suspicious_strings.is_empty());
}

#[test]
fn keylogger_rule_matches_its_strings() {
    let content = b"This keylog module calls GetAsyncKeyState in a loop";
    let st = strings_of(content);
    let info = file(Some("exe"), content.len() as u64);
    let analyzer = HeuristicAnalyzer::new();
    let keylogger = &analyzer.get_rules()[4];
    let m = analyzer.evaluate_rule(keylogger, &info, &None, &entropy(4.5), &st).unwrap();
    assert_eq!(m.rule.id, "HEUR_005");
    assert!(m.evidence.contains(&("suspicious_string_matches".to_string(), "2".to_string())));
    let injection = &analyzer.get_rules()[2];
    assert!(analyzer.evaluate_rule(injection, &info, &None, &entropy(4.5), &st).is_none());
}

#[test]
fn test_threat_conversion() {
    let analyzer = HeuristicAnalyzer::new();
    let rule_match = RuleMatch {
        rule: HeuristicRule {
            id: "TEST_001".to_string(),
            name: "Test Rule".to_string(),
            description: "Test description".to_string(),
            severity: ThreatSeverity::High,
            threat_type: ThreatType::Trojan,
            conditions: Vec::new(),
            weight: 0.8f32.to_bits(),
            enabled: true,
        },
        confidence: 0.9f32.to_bits(),
        matched_conditions: Vec::new(),
        evidence: vec![("test_key".to_string(), "test_value".to_string())],
    };
    let result = HeuristicResult {
        rule_matches: vec![rule_match],
        pe_analysis: None,
        behavior_analysis: BehaviorAnalyzer::new().analyze_behavior(&file(None, 1)),
        entropy_analysis: entropy(5.0),
        string_analysis: strings_of(b""),
        overall_score: 0.8f32.to_bits(),
        threat_level: ThreatSeverity::High,
    };
    let rendered = vec![(f32::from_bits(0.9f32.to_bits()).to_string(), "condition1".to_string())];
    let threats = analyzer.results_to_threats(&result, "/tmp/test.exe", "abcd1234", &rendered).unwrap();
    assert_eq!(threats.len(), 1);
    assert_eq!(threats[0].name, "Heuristic.TestRule");
    assert_eq!(threats[0].threat_type, ThreatType::Trojan);
    assert_eq!(threats[0].severity, ThreatSeverity::High);
    assert_eq!(threats[0].detection_method, DetectionMethod::Heuristic);
    let info = &threats[0].additional_info;
    let get = |k: &str| info.iter().find(|(a, _)| a == k).map(|(_, v)| v.clone());
    assert_eq!(get("test_key"), Some("test_value".to_string()));
    assert_eq!(get("confidence"), Some("0.9".to_string()));
    assert_eq!(get("rule_id"), Some("TEST_001".to_string()));
    assert_eq!(get("matched_conditions"), Some("condition1".to_string()));
}

#[test]
fn conditions_on_size_extension_and_entropy() {
    let a = HeuristicAnalyzer::new();
    let st = strings_of(b"");
    let ent = entropy(7.5);
    let size = HeuristicCondition::FileSize { min: Some(10), max: Some(20) };
    assert_eq!(a.evaluate_condition(&size, &file(None, 15), &None, &ent, &st), (true, Some(("file_size".to_string(), "15".to_string()))));
    assert!(!a.evaluate_condition(&size, &file(None, 21), &None, &ent, &st).0);
    let ext = HeuristicCondition::FileExtension { extensions: vec!["exe".to_string(), "dll".to_string()] };
    assert_eq!(a.evaluate_condition(&ext, &file(Some("dll"), 1), &None, &ent, &st), (true, Some(("file_extension".to_string(), "dll".to_string()))));
    assert_eq!(a.evaluate_condition(&ext, &file(None, 1), &None, &ent, &st), (false, None));
    let high = HeuristicCondition::Entropy { min: 7.0f64.to_bits(), max: 8.0f64.to_bits() };
    assert!(a.evaluate_condition(&high, &file(None, 1), &None, &ent, &st).0);
    assert!(!a.evaluate_condition(&high, &file(None, 1), &None, &entropy(6.9), &st).0);
    assert!(!a.evaluate_condition(&HeuristicCondition::PESection { name: ".text".to_string(), characteristics: 1 }, &file(None, 1), &None, &ent, &st).0);
}

#[test]
fn the_packed_executable_rule_needs_both_conditions() {
    let a = HeuristicAnalyzer::new();
    let packed = &a.get_rules()[0];
    let st = strings_of(b"");
    let m = a.evaluate_rule(packed, &file(Some("exe"), 100), &None, &entropy(7.6), &st).unwrap();
    assert_eq!(m.confidence, ONE_F32);
    assert_eq!(m.matched_conditions.len(), 2);
    assert!(m.evidence.contains(&("file_extension".to_string(), "exe".to_string())));
    assert!(m.evidence.contains(&("entropy".to_string(), "7.6".to_string())));
    assert!(a.evaluate_rule(packed, &file(Some("txt"), 100), &None, &entropy(7.6), &st).is_none());
    assert!(a.evaluate_rule(&rule("EMPTY", vec![]), &file(Some("exe"), 1), &None, &entropy(1.0), &st).is_none());
}

#[test]
fn suspicious_string_categories() {
    let a = StringAnalyzer::new();
    let strings = vec![
        "run cmd.exe now".to_string(),
        "CryptEncrypt(key)".to_string(),
        "https://example.com".to_string(),
        "WriteFile".to_string(),
        "HKEY_LOCAL_MACHINE\\Software".to_string(),
        "plain".to_string(),
    ];
    let sus = a.identify_suspicious_strings(&strings);
    assert!(sus.iter().any(|s| s.string == "run cmd.exe now" && s.category == "Command Execution" && s.risk_level == 8));
    assert_eq!(a.identify_crypto_strings(&strings), vec!["CryptEncrypt(key)".to_string()]);
    assert_eq!(a.identify_network_strings(&strings), vec!["https://example.com".to_string()]);
    assert_eq!(a.identify_file_strings(&strings), vec!["WriteFile".to_string()]);
    assert_eq!(a.identify_registry_strings(&strings), vec!["HKEY_LOCAL_MACHINE\\Software".to_string()]);
}

#[test]
fn heuristic_test_entropy_calculation() {
    let r = entropy(7.2);
    assert!(r.is_packed);
    let r = entropy(7.0);
    assert!(!r.is_packed);
    assert!(r.section_entropies.is_empty());
}

#[test]
fn static_behavior_is_empty() {
    let b: BehaviorAnalysisResult = BehaviorAnalyzer::new().analyze_behavior(&file(None, 1));
    assert!(b.suspicious_behaviors.is_empty());
    assert_eq!(b.behavior_score, 0);
    let pe = PEAnalyzer::new().analyze_pe_content(b"not a pe", 0, 0);
    assert!(!pe.is_pe);
}

#[test]
fn matching_rules_follow_enabled_firing_rules() {
    let mut analyzer = HeuristicAnalyzer::new();
    analyzer.add_rule(rule("SIZE", vec![HeuristicCondition::FileSize { min: Some(10), max: Some(20) }]));
    analyzer.add_rule(rule("EXE", vec![HeuristicCondition::FileExtension { extensions: vec!["exe".to_string()] }]));
    let ent = entropy(1.0);
    let st = strings_of(b"nothing here");
    let fi = file(Some("exe"), 15);
    let hits: Vec<String> = analyzer
        .matching_rules(&fi, &None, &ent, &st)
        .iter()
        .map(|m| m.rule.id.clone())
        .collect();
    assert!(hits.contains(&"SIZE".to_string()));
    assert!(hits.contains(&"EXE".to_string()));
    analyzer.set_rule_enabled("SIZE", false);
    let after: Vec<String> = analyzer
        .matching_rules(&fi, &None, &ent, &st)
        .iter()
        .map(|m| m.rule.id.clone())
        .collect();
    assert!(!after.contains(&"SIZE".to_string()));
    assert!(after.contains(&"EXE".to_string()));
    let none = analyzer.matching_rules(&file(Some("txt"), 5), &None, &ent, &st);
    assert!(none.iter().all(|m| m.rule.id != "EXE"));
}

#[test]
fn string_score_terms() {
    let a = StringAnalyzer::new();
    let strings = a.extract_strings(b"cmd.exe\0keylogger\0hello", 4);
    let sus = a.identify_suspicious_strings(&strings);
    let (total, max) = a.string_score_parts(&sus);
    assert_eq!(max, sus.len() as u32 * 10);
    assert_eq!(total, sus.iter().map(|s| s.risk_level as u32).sum::<u32>());
    assert_eq!(a.string_score_parts(&[]), (0, 0));
}

#[test]
fn score_thresholds() {
    assert_eq!(threat_level_for(0.8f32.to_bits()), ThreatSeverity::Critical);
    assert_eq!(threat_level_for(1.5f32.to_bits()), ThreatSeverity::Critical);
    assert_eq!(threat_level_for(0.79f32.to_bits()), ThreatSeverity::High);
    assert_eq!(threat_level_for(0.6f32.to_bits()), ThreatSeverity::High);
    assert_eq!(threat_level_for(0.5f32.to_bits()), ThreatSeverity::Medium);
    assert_eq!(threat_level_for(0.2f32.to_bits()), ThreatSeverity::Low);
    assert_eq!(threat_level_for((-1.0f32).to_bits()), ThreatSeverity::Low);
    assert_eq!(threat_level_for(f32::NAN.to_bits()), ThreatSeverity::Low);
}

#[test]
fn test_heuristic_rule_evaluation() {
    let content = b"This contains cmd.exe powershell.exe keylog password backdoor";
    let file_info = FileInfo {
        path: "test.exe".to_string(),
        size: content.len() as u64,
        modified: 0,
        created: 0,
        is_executable: true,
        extension: Some("exe".to_string()),
        mime_type: Some("application/x-msdownload".to_string()),
    };
    let analyzer = HeuristicAnalyzer::new();
    let pe_analysis = Some(PEAnalyzer::new().analyze_pe_content(content, 0, 0));
    let st = strings_of(content);
    let rule_matches = analyzer.matching_rules(&file_info, &pe_analysis, &entropy(4.0), &st);
    let mut overall_score = 0.0f32;
    for m in &rule_matches {
        overall_score += f32::from_bits(m.confidence) * f32::from_bits(m.rule.weight);
    }
    assert!(overall_score > 0.0);
    assert!(!rule_matches.is_empty());
    assert_eq!(rule_matches[0].rule.id, "HEUR_005");
    assert!(rule_matches[0].evidence.contains(&("suspicious_string_matches".to_string(), "2".to_string())));
}

#[test]
fn threat_conversion_checks_the_hash_digits() {
    let analyzer = HeuristicAnalyzer::new();
    let result = HeuristicResult {
        rule_matches: vec![RuleMatch {
            rule: rule("R1", Vec::new()),
            confidence: ONE_F32,
            matched_conditions: Vec::new(),
            evidence: Vec::new(),
        }],
        pe_analysis: None,
        behavior_analysis: BehaviorAnalyzer::new().analyze_behavior(&file(Some("exe"), 1)),
        entropy_analysis: entropy(1.0),
        string_analysis: strings_of(b""),
        overall_score: 0,
        threat_level: ThreatSeverity::Low,
    };
    let rendered = vec![("1".to_string(), "".to_string())];
    let threats = analyzer.results_to_threats(&result, "/tmp/x", "ABCD12", &rendered).unwrap();
    assert_eq!(threats[0].file_hash, "abcd12");
    let err = analyzer.results_to_threats(&result, "/tmp/x", "abcz", &rendered).unwrap_err();
    assert_eq!(err, hadron_core::error::AntivirusError::Internal("Invalid file hash format".to_string()));
    let empty = HeuristicResult { rule_matches: Vec::new(), ..result };
    assert!(analyzer.results_to_threats(&empty, "/tmp/x", "abcz", &[]).unwrap().is_empty());
}
