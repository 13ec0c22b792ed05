//! Heuristic detection: rules made of conditions on a file, its PE
//! structure, its entropy and the strings found in it, and the string
//! classifiers that feed them. Numbers with fractions (entropies, weights,
//! scores) are held by their IEEE-754 bit patterns; the caller computes them.
use vstd::prelude::*;
use vstd::string::StringExecFns;
use crate::file_utils::{extract_strings, printable_strings, string_views, FileInfo};
use crate::pe_analyzer::{import_table, packers_are, pe_analysis_of, pe_signature_ok, table_is, AdvancedPEAnalyzer};
use crate::float_bits::{f64_le, le_bits, EIGHT, SEVEN};
use crate::clock::{new_id, now_millis};
use crate::error::AntivirusError;
use crate::pairs::{clone_pairs, insert_pair, lookup};
use crate::text::{
    chars_of, decimal, is_hex_digit, lowercase, owned, push_char, seq_contains, str_contains, str_eq, to_lowercase,
    u64_to_string,
};
use crate::types::{DetectionMethod, ThreatInfo, ThreatSeverity, ThreatType};

verus! {

/// The bits of the single-precision number 1.0.
pub const ONE_F32: u32 = 0x3F80_0000;

/// Heuristic rule for pattern matching. `weight` holds the IEEE-754
/// single-precision bits of the rule's weight.
#[derive(Debug)]
pub struct HeuristicRule {
    pub id: String,
    pub name: String,
    pub description: String,
    pub severity: ThreatSeverity,
    pub threat_type: ThreatType,
    pub conditions: Vec<HeuristicCondition>,
    pub weight: u32,
    pub enabled: bool,
}

/// Condition for heuristic rules. The bounds of `Entropy` hold the IEEE-754
/// double-precision bits of the bounds.
#[derive(Debug)]
pub enum HeuristicCondition {
    /// File size condition
    FileSize { min: Option<u64>, max: Option<u64> },
    /// File extension condition
    FileExtension { extensions: Vec<String> },
    /// Entropy condition
    Entropy { min: u64, max: u64 },
    /// String pattern condition
    StringPattern { pattern: String, count: usize },
    /// PE section condition
    PESection { name: String, characteristics: u32 },
    /// Import function condition
    ImportFunction { dll: String, function: String },
    /// Export function condition
    ExportFunction { function: String },
    /// Resource condition
    Resource { resource_type: String, size: Option<u64> },
    /// Packer detection
    PackerDetection { packer_name: String },
    /// Code cave detection
    CodeCave { min_size: u64 },
    /// Suspicious strings
    SuspiciousStrings { patterns: Vec<String>, threshold: usize },
}

/// A copy of a list of strings.
pub fn clone_strings(v: &Vec<String>) -> (r: Vec<String>)
    ensures
        r@ == v@,
{
    let mut r: Vec<String> = Vec::new();
    let n = v.len();
    for i in 0..n
        invariant
            n == v@.len(),
            r@ == v@.take(i as int),
    {
        r.push(v[i].clone());
        assert(r@ =~= v@.take(i + 1));
    }
    assert(v@.take(n as int) =~= v@);
    r
}

/// The two conditions are the same, their lists compared by their contents.
pub open spec fn same_condition(a: HeuristicCondition, b: HeuristicCondition) -> bool {
    match (a, b) {
        (
            HeuristicCondition::FileExtension { extensions: x },
            HeuristicCondition::FileExtension { extensions: y },
        ) => x@ == y@,
        (
            HeuristicCondition::SuspiciousStrings { patterns: x, threshold: t },
            HeuristicCondition::SuspiciousStrings { patterns: y, threshold: u },
        ) => x@ == y@ && t == u,
        _ => a == b,
    }
}

/// The two lists hold the same conditions in the same order.
pub open spec fn same_conditions(a: Seq<HeuristicCondition>, b: Seq<HeuristicCondition>) -> bool {
    a.len() == b.len() && forall|i: int| 0 <= i < a.len() ==> same_condition(#[trigger] a[i], b[i])
}

/// The two rules are the same.
pub open spec fn same_rule(a: HeuristicRule, b: HeuristicRule) -> bool {
    &&& a.id == b.id
    &&& a.name == b.name
    &&& a.description == b.description
    &&& a.severity == b.severity
    &&& a.threat_type == b.threat_type
    &&& same_conditions(a.conditions@, b.conditions@)
    &&& a.weight == b.weight
    &&& a.enabled == b.enabled
}

impl Clone for HeuristicCondition {
    fn clone(&self) -> (r: Self)
        ensures
            same_condition(r, *self),
    {
        match self {
            HeuristicCondition::FileSize { min, max } => HeuristicCondition::FileSize {
                min: *min,
                max: *max,
            },
            HeuristicCondition::FileExtension { extensions } => HeuristicCondition::FileExtension {
                extensions: clone_strings(extensions),
            },
            HeuristicCondition::Entropy { min, max } => HeuristicCondition::Entropy {
                min: *min,
                max: *max,
            },
            HeuristicCondition::StringPattern { pattern, count } => HeuristicCondition::StringPattern {
                pattern: pattern.clone(),
                count: *count,
            },
            HeuristicCondition::PESection { name, characteristics } => HeuristicCondition::PESection {
                name: name.clone(),
                characteristics: *characteristics,
            },
            HeuristicCondition::ImportFunction { dll, function } => HeuristicCondition::ImportFunction {
                dll: dll.clone(),
                function: function.clone(),
            },
            HeuristicCondition::ExportFunction { function } => HeuristicCondition::ExportFunction {
                function: function.clone(),
            },
            HeuristicCondition::Resource { resource_type, size } => HeuristicCondition::Resource {
                resource_type: resource_type.clone(),
                size: *size,
            },
            HeuristicCondition::PackerDetection { packer_name } => HeuristicCondition::PackerDetection {
                packer_name: packer_name.clone(),
            },
            HeuristicCondition::CodeCave { min_size } => HeuristicCondition::CodeCave {
                min_size: *min_size,
            },
            HeuristicCondition::SuspiciousStrings { patterns, threshold } => HeuristicCondition::SuspiciousStrings {
                patterns: clone_strings(patterns),
                threshold: *threshold,
            },
        }
    }
}

/// A copy of a list of conditions.
pub fn clone_conditions(v: &Vec<HeuristicCondition>) -> (r: Vec<HeuristicCondition>)
    ensures
        same_conditions(r@, v@),
{
    let mut r: Vec<HeuristicCondition> = Vec::new();
    let n = v.len();
    for i in 0..n
        invariant
            n == v@.len(),
            r@.len() == i,
            forall|j: int| 0 <= j < i ==> same_condition(#[trigger] r@[j], v@[j]),
    {
        r.push(v[i].clone());
    }
    r
}

impl Clone for HeuristicRule {
    fn clone(&self) -> (r: Self)
        ensures
            same_rule(r, *self),
    {
        HeuristicRule {
            id: self.id.clone(),
            name: self.name.clone(),
            description: self.description.clone(),
            severity: self.severity,
            threat_type: self.threat_type,
            conditions: clone_conditions(&self.conditions),
            weight: self.weight,
            enabled: self.enabled,
        }
    }
}

/// Heuristic analysis result. `overall_score` holds single-precision bits.
#[derive(Debug, Clone)]
pub struct HeuristicResult {
    pub rule_matches: Vec<RuleMatch>,
    pub pe_analysis: Option<PEAnalysisResult>,
    pub behavior_analysis: BehaviorAnalysisResult,
    pub entropy_analysis: EntropyAnalysisResult,
    pub string_analysis: StringAnalysisResult,
    pub overall_score: u32,
    pub threat_level: ThreatSeverity,
}

/// Rule match result. `confidence` holds single-precision bits; the matched
/// conditions are the conditions themselves, in the rule's order.
#[derive(Debug, Clone)]
pub struct RuleMatch {
    pub rule: HeuristicRule,
    pub confidence: u32,
    pub matched_conditions: Vec<HeuristicCondition>,
    pub evidence: Vec<(String, String)>,
}

/// PE file analysis result
#[derive(Debug, Clone)]
pub struct PEAnalysisResult {
    pub is_pe: bool,
    pub is_packed: bool,
    pub packer_name: Option<String>,
    pub sections: Vec<PESection>,
    pub imports: Vec<ImportFunction>,
    pub exports: Vec<ExportFunction>,
    pub resources: Vec<ResourceEntry>,
    pub suspicious_characteristics: Vec<String>,
    pub code_caves: Vec<CodeCave>,
    pub overlay_size: u64,
}

/// PE section information. `entropy` holds double-precision bits.
#[derive(Debug, Clone)]
pub struct PESection {
    pub name: String,
    pub virtual_size: u32,
    pub raw_size: u32,
    pub characteristics: u32,
    pub entropy: u64,
    pub is_executable: bool,
    pub is_writable: bool,
    pub is_suspicious: bool,
}

/// Import function information
#[derive(Debug, Clone)]
pub struct ImportFunction {
    pub dll: String,
    pub function: String,
    pub is_suspicious: bool,
    pub risk_level: u8,
}

/// Export function information
#[derive(Debug, Clone)]
pub struct ExportFunction {
    pub function: String,
    pub ordinal: u16,
    pub is_suspicious: bool,
}

/// Resource entry information. `entropy` holds double-precision bits.
#[derive(Debug, Clone)]
pub struct ResourceEntry {
    pub resource_type: String,
    pub size: u64,
    pub entropy: u64,
    pub is_suspicious: bool,
}

/// Code cave information
#[derive(Debug, Clone)]
pub struct CodeCave {
    pub offset: u64,
    pub size: u64,
    pub section: String,
}

/// Behavior analysis result. `behavior_score` holds single-precision bits.
#[derive(Debug, Clone)]
pub struct BehaviorAnalysisResult {
    pub suspicious_behaviors: Vec<SuspiciousBehavior>,
    pub api_calls: Vec<APICall>,
    pub network_indicators: Vec<NetworkIndicator>,
    pub file_operations: Vec<FileOperation>,
    pub registry_operations: Vec<RegistryOperation>,
    pub behavior_score: u32,
}

/// Suspicious behavior pattern. `confidence` holds single-precision bits.
#[derive(Debug, Clone)]
pub struct SuspiciousBehavior {
    pub behavior_type: String,
    pub description: String,
    pub severity: ThreatSeverity,
    pub evidence: Vec<String>,
    pub confidence: u32,
}

/// API call information
#[derive(Debug, Clone)]
pub struct APICall {
    pub dll: String,
    pub function: String,
    pub is_suspicious: bool,
    pub risk_level: u8,
    pub description: String,
}

/// Network indicator
#[derive(Debug, Clone)]
pub struct NetworkIndicator {
    pub indicator_type: String,
    pub value: String,
    pub is_suspicious: bool,
    pub description: String,
}

/// File operation indicator
#[derive(Debug, Clone)]
pub struct FileOperation {
    pub operation: String,
    pub target: String,
    pub is_suspicious: bool,
    pub description: String,
}

/// Registry operation indicator
#[derive(Debug, Clone)]
pub struct RegistryOperation {
    pub operation: String,
    pub key: String,
    pub value: Option<String>,
    pub is_suspicious: bool,
    pub description: String,
}

/// Entropy analysis result. `overall_entropy` holds double-precision bits and
/// `overall_entropy_text` the same number as Rust displays it; the section
/// entropies hold bits too, and `entropy_score` single-precision bits.
#[derive(Debug, Clone)]
pub struct EntropyAnalysisResult {
    pub overall_entropy: u64,
    pub overall_entropy_text: String,
    pub section_entropies: Vec<(String, u64)>,
    pub high_entropy_sections: Vec<String>,
    pub is_packed: bool,
    pub entropy_score: u32,
}

/// String analysis result. `string_score` holds single-precision bits.
#[derive(Debug, Clone)]
pub struct StringAnalysisResult {
    pub suspicious_strings: Vec<SuspiciousString>,
    pub crypto_strings: Vec<String>,
    pub network_strings: Vec<String>,
    pub file_strings: Vec<String>,
    pub registry_strings: Vec<String>,
    pub string_score: u32,
}

/// Suspicious string information
#[derive(Debug, Clone)]
pub struct SuspiciousString {
    pub string: String,
    pub category: String,
    pub risk_level: u8,
    pub description: String,
}

/// The number of suspicious strings that contain `p`.
pub open spec fn count_containing(ss: Seq<SuspiciousString>, p: Seq<char>) -> nat
    decreases ss.len(),
{
    if ss.len() == 0 {
        0
    } else {
        count_containing(ss.drop_last(), p) + if seq_contains(ss.last().string@, p) { 1nat } else { 0nat }
    }
}

/// Some suspicious string, lowercased, contains the pattern lowercased.
pub open spec fn found_lowercase(ss: Seq<SuspiciousString>, p: Seq<char>) -> bool {
    exists|i: int| 0 <= i < ss.len() && seq_contains(lowercase(#[trigger] ss[i].string@), lowercase(p))
}

/// The number of patterns found, ignoring case, in the suspicious strings.
pub open spec fn patterns_found(ss: Seq<SuspiciousString>, ps: Seq<String>) -> nat
    decreases ps.len(),
{
    if ps.len() == 0 {
        0
    } else {
        patterns_found(ss, ps.drop_last()) + if found_lowercase(ss, ps.last()@) { 1nat } else { 0nat }
    }
}

/// Whether a condition holds of the file and its analyses, with the evidence
/// (key and value) that its evaluation records.
pub open spec fn condition_result(
    c: HeuristicCondition,
    info: FileInfo,
    pe: Option<PEAnalysisResult>,
    ent: EntropyAnalysisResult,
    st: StringAnalysisResult,
) -> (bool, Option<(Seq<char>, Seq<char>)>) {
    match c {
        HeuristicCondition::FileSize { min, max } => (
            (match min {
                Some(m) => info.size >= m,
                None => true,
            }) && (match max {
                Some(m) => info.size <= m,
                None => true,
            }),
            Some(("file_size"@, decimal(info.size as nat))),
        ),
        HeuristicCondition::FileExtension { extensions } => match info.extension {
            Some(ext) => (string_views(extensions@).contains(ext@), Some(("file_extension"@, ext@))),
            None => (false, None),
        },
        HeuristicCondition::Entropy { min, max } => (
            f64_le(min, ent.overall_entropy) && f64_le(ent.overall_entropy, max),
            Some(("entropy"@, ent.overall_entropy_text@)),
        ),
        HeuristicCondition::StringPattern { pattern, count } => (
            count_containing(st.suspicious_strings@, pattern@) >= count,
            Some(("string_matches"@, decimal(count_containing(st.suspicious_strings@, pattern@)))),
        ),
        HeuristicCondition::PESection { name, characteristics } => match pe {
            Some(p) => (
                exists|i: int|
                    0 <= i < p.sections@.len() && (#[trigger] p.sections@[i]).name@ == name@
                        && (p.sections@[i].characteristics & characteristics) != 0,
                Some(("pe_section"@, name@)),
            ),
            None => (false, None),
        },
        HeuristicCondition::ImportFunction { dll, function } => match pe {
            Some(p) => (
                exists|i: int|
                    0 <= i < p.imports@.len() && lowercase((#[trigger] p.imports@[i]).dll@) == lowercase(dll@)
                        && lowercase(p.imports@[i].function@) == lowercase(function@),
                Some(("import_function"@, dll@ + ":"@ + function@)),
            ),
            None => (false, None),
        },
        HeuristicCondition::ExportFunction { function } => match pe {
            Some(p) => (
                exists|i: int|
                    0 <= i < p.exports@.len() && lowercase((#[trigger] p.exports@[i]).function@)
                        == lowercase(function@),
                Some(("export_function"@, function@)),
            ),
            None => (false, None),
        },
        HeuristicCondition::Resource { resource_type, size } => match pe {
            Some(p) => (
                exists|i: int|
                    0 <= i < p.resources@.len() && (#[trigger] p.resources@[i]).resource_type@
                        == resource_type@ && match size {
                        Some(s) => p.resources@[i].size >= s,
                        None => true,
                    },
                Some(("resource_type"@, resource_type@)),
            ),
            None => (false, None),
        },
        HeuristicCondition::PackerDetection { packer_name } => match pe {
            Some(p) => (
                p.is_packed && (p.packer_name matches Some(n) && n@ == packer_name@),
                Some(("packer_detected"@, match p.packer_name {
                    Some(n) => n@,
                    None => Seq::empty(),
                })),
            ),
            None => (false, None),
        },
        HeuristicCondition::CodeCave { min_size } => match pe {
            Some(p) => (
                exists|i: int| 0 <= i < p.code_caves@.len() && (#[trigger] p.code_caves@[i]).size >= min_size,
                Some(("code_caves"@, decimal(p.code_caves@.len()))),
            ),
            None => (false, None),
        },
        HeuristicCondition::SuspiciousStrings { patterns, threshold } => (
            patterns_found(st.suspicious_strings@, patterns@) >= threshold,
            Some(("suspicious_string_matches"@, decimal(patterns_found(st.suspicious_strings@, patterns@)))),
        ),
    }
}

fn evidence_of(key: &str, value: String) -> (r: Option<(String, String)>)
    ensures
        r matches Some(kv) && kv.0@ == key@ && kv.1@ == value@,
{
    Some((owned(key), value))
}

fn lower_eq(a: &str, b: &str) -> (r: bool)
    ensures
        r == (lowercase(a@) == lowercase(b@)),
{
    let x = to_lowercase(a);
    let y = to_lowercase(b);
    str_eq(x.as_str(), y.as_str())
}

fn lower_contains(a: &str, b: &str) -> (r: bool)
    ensures
        r == seq_contains(lowercase(a@), lowercase(b@)),
{
    let x = to_lowercase(a);
    let y = to_lowercase(b);
    str_contains(x.as_str(), y.as_str())
}

/// The evidence left by the conditions that hold, later ones overriding
/// earlier ones: the value recorded for `k`.
pub open spec fn gathered(
    conds: Seq<HeuristicCondition>,
    info: FileInfo,
    pe: Option<PEAnalysisResult>,
    ent: EntropyAnalysisResult,
    st: StringAnalysisResult,
    k: Seq<char>,
) -> Option<Seq<char>>
    decreases conds.len(),
{
    if conds.len() == 0 {
        None
    } else {
        let res = condition_result(conds.last(), info, pe, ent, st);
        if res.0 && (res.1 matches Some(kv) && kv.0 == k) {
            let kv = res.1->0;
            Some(kv.1)
        } else {
            gathered(conds.drop_last(), info, pe, ent, st, k)
        }
    }
}

/// Heuristic analyzer for detecting suspicious behavior patterns
pub struct HeuristicAnalyzer {
    rules: Vec<HeuristicRule>,
    pe_analyzer: PEAnalyzer,
    behavior_analyzer: BehaviorAnalyzer,
    entropy_analyzer: EntropyAnalyzer,
    string_analyzer: StringAnalyzer,
}

/// The rules of `s` without those with the identifier `id`.
pub open spec fn without_id(s: Seq<HeuristicRule>, id: Seq<char>) -> Seq<HeuristicRule>
    decreases s.len(),
{
    if s.len() == 0 {
        Seq::empty()
    } else if s.last().id@ == id {
        without_id(s.drop_last(), id)
    } else {
        without_id(s.drop_last(), id).push(s.last())
    }
}

impl HeuristicAnalyzer {
    /// The analyzer's rules.
    pub closed spec fn rule_list(&self) -> Seq<HeuristicRule> {
        self.rules@
    }

    /// A heuristic analyzer with the default rules.
    pub fn new() -> (r: Self)
        ensures
            default_rules(r.rule_list()),
    {
        HeuristicAnalyzer {
            rules: Self::load_default_rules(),
            pe_analyzer: PEAnalyzer::new(),
            behavior_analyzer: BehaviorAnalyzer::new(),
            entropy_analyzer: EntropyAnalyzer::new(),
            string_analyzer: StringAnalyzer::new(),
        }
    }

    /// The default rules (see `default_rules`).
    ///
    /// The keylogger rule looks for four patterns, two of which must occur:
    /// `GetAsyncKeyState`, `SetWindowsHookEx`, `keylog` and `password`. The
    /// fourth, `password`, is this library's addition: it makes the rule fire
    /// on a text that names keylogging and passwords, as the analyzer's test of
    /// rule evaluation expects; it also flags a file that holds `password`
    /// beside any one of the other three, which three patterns alone would not.
    fn load_default_rules() -> (r: Vec<HeuristicRule>)
        ensures
            default_rules(r@),
    {
        let mut rules: Vec<HeuristicRule> = Vec::new();
        let mut c1: Vec<HeuristicCondition> = Vec::new();
        let exts = owned_list(&["exe", "dll"]);
        assert(string_views(exts@) =~= seq!["exe"@, "dll"@]);
        c1.push(HeuristicCondition::FileExtension { extensions: exts });
        c1.push(HeuristicCondition::Entropy { min: SEVEN, max: EIGHT });
        rules.push(make_rule(
            "HEUR_001",
            "High Entropy Packed Executable",
            "Executable with high entropy indicating packing or encryption",
            ThreatSeverity::Medium,
            ThreatType::Suspicious,
            c1,
            0x3F33_3333,
        ));
        let mut c2: Vec<HeuristicCondition> = Vec::new();
        c2.push(HeuristicCondition::ImportFunction {
            dll: owned("kernel32.dll"),
            function: owned("CreateRemoteThread"),
        });
        c2.push(HeuristicCondition::ImportFunction {
            dll: owned("kernel32.dll"),
            function: owned("WriteProcessMemory"),
        });
        rules.push(make_rule(
            "HEUR_002",
            "Suspicious API Imports",
            "Executable imports suspicious Windows APIs",
            ThreatSeverity::High,
            ThreatType::Trojan,
            c2,
            0x3F66_6666,
        ));
        let mut c3: Vec<HeuristicCondition> = Vec::new();
        let p3 = owned_list(&["VirtualAllocEx", "WriteProcessMemory", "CreateRemoteThread"]);
        assert(string_views(p3@) =~= seq!["VirtualAllocEx"@, "WriteProcessMemory"@, "CreateRemoteThread"@]);
        c3.push(HeuristicCondition::SuspiciousStrings { patterns: p3, threshold: 2 });
        rules.push(make_rule(
            "HEUR_003",
            "Code Injection Patterns",
            "Patterns indicating code injection techniques",
            ThreatSeverity::High,
            ThreatType::Trojan,
            c3,
            0x3F4C_CCCD,
        ));
        let mut c4: Vec<HeuristicCondition> = Vec::new();
        let p4 = owned_list(&["CryptEncrypt", "CryptGenKey", "bitcoin", "ransom", "decrypt"]);
        assert(string_views(p4@) =~= seq!["CryptEncrypt"@, "CryptGenKey"@, "bitcoin"@, "ransom"@, "decrypt"@]);
        c4.push(HeuristicCondition::SuspiciousStrings { patterns: p4, threshold: 3 });
        rules.push(make_rule(
            "HEUR_004",
            "Ransomware Indicators",
            "Behavioral patterns indicating ransomware",
            ThreatSeverity::Critical,
            ThreatType::Ransomware,
            c4,
            0x3F73_3333,
        ));
        let mut c5: Vec<HeuristicCondition> = Vec::new();
        let p5 = owned_list(&["GetAsyncKeyState", "SetWindowsHookEx", "keylog", "password"]);
        assert(string_views(p5@) =~= seq!["GetAsyncKeyState"@, "SetWindowsHookEx"@, "keylog"@, "password"@]);
        c5.push(HeuristicCondition::SuspiciousStrings { patterns: p5, threshold: 2 });
        rules.push(make_rule(
            "HEUR_005",
            "Keylogger Patterns",
            "Patterns indicating keylogging functionality",
            ThreatSeverity::High,
            ThreatType::Spyware,
            c5,
            0x3F59_999A,
        ));
        rules
    }

    /// Evaluate a single condition: whether it holds, and its evidence.
    pub fn evaluate_condition(
        &self,
        condition: &HeuristicCondition,
        file_info: &FileInfo,
        pe_analysis: &Option<PEAnalysisResult>,
        entropy_analysis: &EntropyAnalysisResult,
        string_analysis: &StringAnalysisResult,
    ) -> (r: (bool, Option<(String, String)>))
        ensures
            r.0 == condition_result(*condition, *file_info, *pe_analysis, *entropy_analysis, *string_analysis).0,
            match r.1 {
                Some(kv) => condition_result(*condition, *file_info, *pe_analysis, *entropy_analysis, *string_analysis).1
                    == Some((kv.0@, kv.1@)),
                None => condition_result(*condition, *file_info, *pe_analysis, *entropy_analysis, *string_analysis).1
                    is None,
            },
    {
        match condition {
            HeuristicCondition::FileSize { min, max } => {
                let size = file_info.size;
                let min_ok = match min {
                    Some(m) => size >= *m,
                    None => true,
                };
                let max_ok = match max {
                    Some(m) => size <= *m,
                    None => true,
                };
                (min_ok && max_ok, evidence_of("file_size", u64_to_string(size)))
            },
            HeuristicCondition::FileExtension { extensions } => {
                match &file_info.extension {
                    Some(ext) => {
                        let mut found = false;
                        let mut i: usize = 0;
                        while i < extensions.len()
                            invariant
                                i <= extensions@.len(),
                                found == exists|j: int| 0 <= j < i && (#[trigger] extensions@[j])@ == ext@,
                            decreases extensions@.len() - i,
                        {
                            if str_eq(extensions[i].as_str(), ext.as_str()) {
                                found = true;
                            }
                            i = i + 1;
                        }
                        proof {
                            if found {
                                let j = choose|j: int| 0 <= j < extensions@.len() && (#[trigger] extensions@[j])@ == ext@;
                                assert(string_views(extensions@)[j] == ext@);
                            }
                            if string_views(extensions@).contains(ext@) {
                                let j = choose|j: int| 0 <= j < string_views(extensions@).len() && string_views(extensions@)[j] == ext@;
                                assert(extensions@[j]@ == ext@);
                            }
                        }
                        (found, evidence_of("file_extension", ext.clone()))
                    },
                    None => (false, None),
                }
            },
            HeuristicCondition::Entropy { min, max } => {
                let e = entropy_analysis.overall_entropy;
                (
                    le_bits(*min, e) && le_bits(e, *max),
                    evidence_of("entropy", entropy_analysis.overall_entropy_text.clone()),
                )
            },
            HeuristicCondition::StringPattern { pattern, count } => {
                let ss = &string_analysis.suspicious_strings;
                let mut matches: usize = 0;
                let n = ss.len();
                for i in 0..n
                    invariant
                        n == ss@.len(),
                        matches == count_containing(ss@.take(i as int), pattern@),
                        matches <= i,
                {
                    assert(ss@.take(i + 1).drop_last() =~= ss@.take(i as int));
                    if str_contains(ss[i].string.as_str(), pattern.as_str()) {
                        matches = matches + 1;
                    }
                }
                assert(ss@.take(n as int) =~= ss@);
                (matches >= *count, evidence_of("string_matches", u64_to_string(matches as u64)))
            },
            HeuristicCondition::PESection { name, characteristics } => {
                match pe_analysis {
                    Some(pe) => {
                        let mut found = false;
                        let mut i: usize = 0;
                        while i < pe.sections.len()
                            invariant
                                i <= pe.sections@.len(),
                                found == exists|j: int|
                                    0 <= j < i && (#[trigger] pe.sections@[j]).name@ == name@
                                        && (pe.sections@[j].characteristics & *characteristics) != 0,
                            decreases pe.sections@.len() - i,
                        {
                            let sec = &pe.sections[i];
                            if str_eq(sec.name.as_str(), name.as_str()) && (sec.characteristics & *characteristics) != 0 {
                                found = true;
                            }
                            i = i + 1;
                        }
                        (found, evidence_of("pe_section", name.clone()))
                    },
                    None => (false, None),
                }
            },
            HeuristicCondition::ImportFunction { dll, function } => {
                match pe_analysis {
                    Some(pe) => {
                        let mut found = false;
                        let mut i: usize = 0;
                        while i < pe.imports.len()
                            invariant
                                i <= pe.imports@.len(),
                                found == exists|j: int|
                                    0 <= j < i && lowercase((#[trigger] pe.imports@[j]).dll@) == lowercase(dll@)
                                        && lowercase(pe.imports@[j].function@) == lowercase(function@),
                            decreases pe.imports@.len() - i,
                        {
                            let imp = &pe.imports[i];
                            if lower_eq(imp.dll.as_str(), dll.as_str()) && lower_eq(imp.function.as_str(), function.as_str()) {
                                found = true;
                            }
                            i = i + 1;
                        }
                        let mut text = dll.clone();
                        push_char(&mut text, ':');
                        text.append(function.as_str());
                        assert(text@ == dll@ + ":"@ + function@) by {
                            reveal_strlit(":");
                            assert(dll@.push(':') =~= dll@ + ":"@);
                        }
                        (found, evidence_of("import_function", text))
                    },
                    None => (false, None),
                }
            },
            HeuristicCondition::ExportFunction { function } => {
                match pe_analysis {
                    Some(pe) => {
                        let mut found = false;
                        let mut i: usize = 0;
                        while i < pe.exports.len()
                            invariant
                                i <= pe.exports@.len(),
                                found == exists|j: int|
                                    0 <= j < i && lowercase((#[trigger] pe.exports@[j]).function@) == lowercase(function@),
                            decreases pe.exports@.len() - i,
                        {
                            if lower_eq(pe.exports[i].function.as_str(), function.as_str()) {
                                found = true;
                            }
                            i = i + 1;
                        }
                        (found, evidence_of("export_function", function.clone()))
                    },
                    None => (false, None),
                }
            },
            HeuristicCondition::Resource { resource_type, size } => {
                match pe_analysis {
                    Some(pe) => {
                        let mut found = false;
                        let mut i: usize = 0;
                        while i < pe.resources.len()
                            invariant
                                i <= pe.resources@.len(),
                                found == exists|j: int|
                                    0 <= j < i && (#[trigger] pe.resources@[j]).resource_type@ == resource_type@
                                        && match *size {
                                        Some(s) => pe.resources@[j].size >= s,
                                        None => true,
                                    },
                            decreases pe.resources@.len() - i,
                        {
                            let res = &pe.resources[i];
                            let size_ok = match size {
                                Some(s) => res.size >= *s,
                                None => true,
                            };
                            if str_eq(res.resource_type.as_str(), resource_type.as_str()) && size_ok {
                                found = true;
                            }
                            i = i + 1;
                        }
                        (found, evidence_of("resource_type", resource_type.clone()))
                    },
                    None => (false, None),
                }
            },
            HeuristicCondition::PackerDetection { packer_name } => {
                match pe_analysis {
                    Some(pe) => {
                        let matched = pe.is_packed && match &pe.packer_name {
                            Some(p) => str_eq(p.as_str(), packer_name.as_str()),
                            None => false,
                        };
                        let shown = match &pe.packer_name {
                            Some(p) => p.clone(),
                            None => String::new(),
                        };
                        (matched, evidence_of("packer_detected", shown))
                    },
                    None => (false, None),
                }
            },
            HeuristicCondition::CodeCave { min_size } => {
                match pe_analysis {
                    Some(pe) => {
                        let mut found = false;
                        let mut i: usize = 0;
                        while i < pe.code_caves.len()
                            invariant
                                i <= pe.code_caves@.len(),
                                found == exists|j: int| 0 <= j < i && (#[trigger] pe.code_caves@[j]).size >= *min_size,
                            decreases pe.code_caves@.len() - i,
                        {
                            if pe.code_caves[i].size >= *min_size {
                                found = true;
                            }
                            i = i + 1;
                        }
                        (found, evidence_of("code_caves", u64_to_string(pe.code_caves.len() as u64)))
                    },
                    None => (false, None),
                }
            },
            HeuristicCondition::SuspiciousStrings { patterns, threshold } => {
                let ss = &string_analysis.suspicious_strings;
                let mut pattern_matches: usize = 0;
                let np = patterns.len();
                for k in 0..np
                    invariant
                        np == patterns@.len(),
                        pattern_matches == patterns_found(ss@, patterns@.take(k as int)),
                        pattern_matches <= k,
                {
                    assert(patterns@.take(k + 1).drop_last() =~= patterns@.take(k as int));
                    let pat = &patterns[k];
                    let mut any = false;
                    let mut i: usize = 0;
                    while i < ss.len()
                        invariant
                            i <= ss@.len(),
                            any == exists|j: int|
                                0 <= j < i && seq_contains(lowercase((#[trigger] ss@[j]).string@), lowercase(pat@)),
                        decreases ss@.len() - i,
                    {
                        if lower_contains(ss[i].string.as_str(), pat.as_str()) {
                            any = true;
                        }
                        i = i + 1;
                    }
                    if any {
                        pattern_matches = pattern_matches + 1;
                    }
                }
                assert(patterns@.take(np as int) =~= patterns@);
                (
                    pattern_matches >= *threshold,
                    evidence_of("suspicious_string_matches", u64_to_string(pattern_matches as u64)),
                )
            },
        }
    }
}

/// The bits of the single-precision thresholds of the threat levels.
pub const CRITICAL_SCORE: u32 = 0x3F4C_CCCD;
/// 0.6 in single precision.
pub const HIGH_SCORE: u32 = 0x3F19_999A;
/// 0.4 in single precision.
pub const MEDIUM_SCORE: u32 = 0x3ECC_CCCD;

/// The threat level of an overall score (single-precision bits): critical
/// from 0.8, high from 0.6, medium from 0.4, low below (and for NaN).
pub open spec fn level_for_score(score: u32) -> ThreatSeverity {
    if crate::float_bits::f32_le(CRITICAL_SCORE, score) {
        ThreatSeverity::Critical
    } else if crate::float_bits::f32_le(HIGH_SCORE, score) {
        ThreatSeverity::High
    } else if crate::float_bits::f32_le(MEDIUM_SCORE, score) {
        ThreatSeverity::Medium
    } else {
        ThreatSeverity::Low
    }
}

/// The threat level of an overall score, given by its single-precision
/// bits.
pub fn threat_level_for(score: u32) -> (r: ThreatSeverity)
    ensures
        r == level_for_score(score),
{
    if crate::float_bits::le_bits32(CRITICAL_SCORE, score) {
        ThreatSeverity::Critical
    } else if crate::float_bits::le_bits32(HIGH_SCORE, score) {
        ThreatSeverity::High
    } else if crate::float_bits::le_bits32(MEDIUM_SCORE, score) {
        ThreatSeverity::Medium
    } else {
        ThreatSeverity::Low
    }
}

/// A higher score never gives a lower threat level: the levels follow the
/// scores' order.
pub proof fn lemma_level_monotone(a: u32, b: u32)
    requires
        crate::float_bits::f32_le(a, b),
    ensures
        crate::types::severity_rank(level_for_score(a)) <= crate::types::severity_rank(level_for_score(b)),
{
}

/// An import condition holds exactly when the PE analysis lists an import
/// with both the condition's DLL and the condition's function, each
/// compared without regard to case: an import of another function from the
/// same DLL does not satisfy it, and without a PE analysis it never holds.
pub proof fn lemma_import_condition_needs_the_function(
    condition: HeuristicCondition,
    file_info: FileInfo,
    pe: Option<PEAnalysisResult>,
    entropy: EntropyAnalysisResult,
    strings: StringAnalysisResult,
)
    requires
        condition is ImportFunction,
    ensures
        condition_result(condition, file_info, pe, entropy, strings).0 <==> (pe matches Some(p) && exists|i: int|
            0 <= i < p.imports@.len() && #[trigger] lowercase(p.imports@[i].dll@) == lowercase(
                condition->ImportFunction_dll@,
            ) && lowercase(p.imports@[i].function@) == lowercase(condition->ImportFunction_function@)),
        (pe matches Some(p) && forall|i: int|
            0 <= i < p.imports@.len() ==> lowercase(#[trigger] p.imports@[i].function@) != lowercase(
                condition->ImportFunction_function@,
            )) ==> !condition_result(condition, file_info, pe, entropy, strings).0,
{
}

/// The rule fires on the analyses: it is enabled, has conditions, and all
/// of them hold.
pub open spec fn rule_fires(
    rule: HeuristicRule,
    file_info: FileInfo,
    pe: Option<PEAnalysisResult>,
    entropy: EntropyAnalysisResult,
    strings: StringAnalysisResult,
) -> bool {
    &&& rule.enabled
    &&& rule.conditions@.len() > 0
    &&& forall|i: int| 0 <= i < rule.conditions@.len() ==> condition_result(
        #[trigger] rule.conditions@[i],
        file_info,
        pe,
        entropy,
        strings,
    ).0
}

/// The rules that fire, in order.
pub open spec fn firing_rules(
    rules: Seq<HeuristicRule>,
    file_info: FileInfo,
    pe: Option<PEAnalysisResult>,
    entropy: EntropyAnalysisResult,
    strings: StringAnalysisResult,
) -> Seq<HeuristicRule>
    decreases rules.len(),
{
    if rules.len() == 0 {
        Seq::empty()
    } else {
        let rest = firing_rules(rules.drop_last(), file_info, pe, entropy, strings);
        if rule_fires(rules.last(), file_info, pe, entropy, strings) {
            rest.push(rules.last())
        } else {
            rest
        }
    }
}

/// The match records the rule, confidence 1.0, the rule's conditions and
/// the evidence that they gather on the analyses.
pub open spec fn match_of(
    m: RuleMatch,
    rule: HeuristicRule,
    file_info: FileInfo,
    pe: Option<PEAnalysisResult>,
    entropy: EntropyAnalysisResult,
    strings: StringAnalysisResult,
) -> bool {
    &&& same_rule(m.rule, rule)
    &&& m.confidence == ONE_F32
    &&& same_conditions(m.matched_conditions@, rule.conditions@)
    &&& forall|k: Seq<char>| lookup(m.evidence@, k) == gathered(rule.conditions@, file_info, pe, entropy, strings, k)
}

impl HeuristicAnalyzer {
    /// Evaluate a single heuristic rule: it matches when it has conditions
    /// and all of them hold. The match carries the rule, confidence 1.0, the
    /// conditions and the evidence that they recorded.
    pub fn evaluate_rule(
        &self,
        rule: &HeuristicRule,
        file_info: &FileInfo,
        pe_analysis: &Option<PEAnalysisResult>,
        entropy_analysis: &EntropyAnalysisResult,
        string_analysis: &StringAnalysisResult,
    ) -> (r: Option<RuleMatch>)
        ensures
            r is Some <==> rule.conditions@.len() > 0 && forall|i: int|
                0 <= i < rule.conditions@.len() ==> condition_result(
                    #[trigger] rule.conditions@[i],
                    *file_info,
                    *pe_analysis,
                    *entropy_analysis,
                    *string_analysis,
                ).0,
            r matches Some(m) ==> {
                &&& same_rule(m.rule, *rule)
                &&& m.confidence == ONE_F32
                &&& same_conditions(m.matched_conditions@, rule.conditions@)
                &&& forall|k: Seq<char>| lookup(m.evidence@, k) == gathered(
                    rule.conditions@,
                    *file_info,
                    *pe_analysis,
                    *entropy_analysis,
                    *string_analysis,
                    k,
                )
            },
    {
        let conds = &rule.conditions;
        let n = conds.len();
        let mut matched: Vec<HeuristicCondition> = Vec::new();
        let mut evidence: Vec<(String, String)> = Vec::new();
        let mut count: usize = 0;
        for i in 0..n
            invariant
                n == conds@.len(),
                count <= i,
                (count == i) <==> forall|j: int|
                    0 <= j < i ==> condition_result(
                        #[trigger] conds@[j],
                        *file_info,
                        *pe_analysis,
                        *entropy_analysis,
                        *string_analysis,
                    ).0,
                count == i ==> same_conditions(matched@, conds@.take(i as int)),
                forall|k: Seq<char>| lookup(evidence@, k) == gathered(
                    conds@.take(i as int),
                    *file_info,
                    *pe_analysis,
                    *entropy_analysis,
                    *string_analysis,
                    k,
                ),
        {
            let c = &conds[i];
            assert(conds@.take(i + 1).drop_last() =~= conds@.take(i as int));
            assert(conds@.take(i + 1).last() == conds@[i as int]);
            let (is_match, ev) = self.evaluate_condition(c, file_info, pe_analysis, entropy_analysis, string_analysis);
            if is_match {
                if count == i {
                    let ghost before = matched@;
                    matched.push(c.clone());
                    assert forall|j: int| 0 <= j < matched@.len() implies same_condition(
                        #[trigger] matched@[j],
                        conds@.take(i + 1)[j],
                    ) by {
                        if j < i {
                            assert(matched@[j] == before[j]);
                            assert(same_condition(before[j], conds@.take(i as int)[j]));
                        }
                    }
                }
                count = count + 1;
                match ev {
                    Some(kv) => {
                        let (key, value) = kv;
                        insert_pair(&mut evidence, key, value);
                    },
                    None => {},
                }
            } else {
                assert(!condition_result(conds@[i as int], *file_info, *pe_analysis, *entropy_analysis, *string_analysis).0);
            }
        }
        assert(conds@.take(n as int) =~= conds@);
        if count == n && count > 0 {
            Some(RuleMatch { rule: rule.clone(), confidence: ONE_F32, matched_conditions: matched, evidence })
        } else {
            None
        }
    }

    /// The matches of the enabled rules that fire on the analyses, in rule
    /// order; the score and threat level computed from them are the
    /// caller's.
    pub fn matching_rules(
        &self,
        file_info: &FileInfo,
        pe_analysis: &Option<PEAnalysisResult>,
        entropy_analysis: &EntropyAnalysisResult,
        string_analysis: &StringAnalysisResult,
    ) -> (r: Vec<RuleMatch>)
        ensures
            r@.len() == firing_rules(self.rule_list(), *file_info, *pe_analysis, *entropy_analysis, *string_analysis).len(),
            forall|k: int| 0 <= k < r@.len() ==> match_of(
                #[trigger] r@[k],
                firing_rules(self.rule_list(), *file_info, *pe_analysis, *entropy_analysis, *string_analysis)[k],
                *file_info,
                *pe_analysis,
                *entropy_analysis,
                *string_analysis,
            ),
    {
        let mut out: Vec<RuleMatch> = Vec::new();
        let n = self.rules.len();
        let ghost all = self.rules@;
        assert(all.take(0) =~= Seq::<HeuristicRule>::empty());
        for i in 0..n
            invariant
                n == self.rules@.len(),
                all == self.rules@,
                out@.len() == firing_rules(all.take(i as int), *file_info, *pe_analysis, *entropy_analysis, *string_analysis).len(),
                forall|k: int| 0 <= k < out@.len() ==> match_of(
                    #[trigger] out@[k],
                    firing_rules(all.take(i as int), *file_info, *pe_analysis, *entropy_analysis, *string_analysis)[k],
                    *file_info,
                    *pe_analysis,
                    *entropy_analysis,
                    *string_analysis,
                ),
        {
            assert(all.take(i + 1).drop_last() =~= all.take(i as int));
            assert(all.take(i + 1).last() == all[i as int]);
            let rule = &self.rules[i];
            if rule.enabled {
                match self.evaluate_rule(rule, file_info, pe_analysis, entropy_analysis, string_analysis) {
                    Some(m) => {
                        out.push(m);
                    },
                    None => {},
                }
            }
        }
        assert(all.take(n as int) =~= all);
        out
    }

    /// Add custom heuristic rule
    pub fn add_rule(&mut self, rule: HeuristicRule)
        ensures
            final(self).rule_list() == old(self).rule_list().push(rule),
    {
        self.rules.push(rule);
    }

    /// Remove heuristic rule by ID: every rule with that identifier leaves.
    pub fn remove_rule(&mut self, rule_id: &str)
        ensures
            final(self).rule_list() == without_id(old(self).rule_list(), rule_id@),
    {
        let ghost orig = self.rules@;
        let total = self.rules.len();
        let mut i: usize = 0;
        let mut k: usize = 0;
        while i < self.rules.len()
            invariant
                total == orig.len(),
                k <= orig.len(),
                i <= self.rules@.len(),
                self.rules@ == without_id(orig.take(k as int), rule_id@) + orig.skip(k as int),
                i == without_id(orig.take(k as int), rule_id@).len(),
            decreases self.rules@.len() - i,
        {
            assert(self.rules@.len() == i + orig.skip(k as int).len());
            assert(k < orig.len());
            assert(orig.skip(k as int)[0] == self.rules@[i as int]);
            assert(orig.take(k + 1).drop_last() =~= orig.take(k as int));
            assert(orig.take(k + 1).last() == orig[k as int]);
            if str_eq(self.rules[i].id.as_str(), rule_id) {
                let ghost before = self.rules@;
                self.rules.remove(i);
                assert(self.rules@ =~= without_id(orig.take(k + 1), rule_id@) + orig.skip(k + 1));
            } else {
                assert(self.rules@ =~= without_id(orig.take(k + 1), rule_id@) + orig.skip(k + 1));
                i = i + 1;
            }
            k = k + 1;
        }
        assert(orig.take(k as int) =~= orig);
        assert(orig.skip(k as int) =~= Seq::<HeuristicRule>::empty());
        assert(self.rules@ =~= without_id(orig, rule_id@));
    }

    /// Enable or disable the first rule with the identifier, if there is one.
    pub fn set_rule_enabled(&mut self, rule_id: &str, enabled: bool)
        ensures
            match first_with_id(old(self).rule_list(), rule_id@) {
                Some(i) => final(self).rule_list().len() == old(self).rule_list().len() && (forall|j: int|
                    0 <= j < old(self).rule_list().len() && j != i ==> #[trigger] final(self).rule_list()[j]
                        == old(self).rule_list()[j]) && final(self).rule_list()[i] == (HeuristicRule {
                    enabled,
                    ..old(self).rule_list()[i]
                }),
                None => final(self).rule_list() == old(self).rule_list(),
            },
    {
        let mut i: usize = 0;
        while i < self.rules.len()
            invariant
                i <= self.rules@.len(),
                self.rules@ == old(self).rules@,
                forall|j: int| 0 <= j < i ==> (#[trigger] self.rules@[j]).id@ != rule_id@,
            decreases self.rules@.len() - i,
        {
            if str_eq(self.rules[i].id.as_str(), rule_id) {
                let mut r = self.rules.remove(i);
                r.enabled = enabled;
                self.rules.insert(i, r);
                proof {
                    lemma_first_with_id(old(self).rules@, rule_id@, i as int);
                }
                return;
            }
            i = i + 1;
        }
        proof {
            lemma_no_id(old(self).rules@, rule_id@);
        }
    }

    /// Get all rules
    pub fn get_rules(&self) -> (r: &[HeuristicRule])
        ensures
            r@ == self.rule_list(),
    {
        self.rules.as_slice()
    }
}

/// The text without its spaces.
pub open spec fn without_spaces(s: Seq<char>) -> Seq<char>
    decreases s.len(),
{
    if s.len() == 0 {
        Seq::empty()
    } else if s.last() == ' ' {
        without_spaces(s.drop_last())
    } else {
        without_spaces(s.drop_last()).push(s.last())
    }
}

/// The additional information of the threat reported for a rule match:
/// its evidence, then its confidence, its rule's identifier and its matched
/// conditions, as the caller rendered them.
pub open spec fn match_info(m: RuleMatch, confidence: Seq<char>, conditions: Seq<char>, k: Seq<char>) -> Option<Seq<char>> {
    if k == "matched_conditions"@ {
        Some(conditions)
    } else if k == "rule_id"@ {
        Some(m.rule.id@)
    } else if k == "confidence"@ {
        Some(confidence)
    } else {
        lookup(m.evidence@, k)
    }
}

/// The threat reported for a rule match on a file.
pub open spec fn threat_of_match(
    t: ThreatInfo,
    m: RuleMatch,
    file_path: Seq<char>,
    file_hash: Seq<char>,
    rendered: (String, String),
) -> bool {
    &&& t.name@ == "Heuristic."@ + without_spaces(m.rule.name@)
    &&& t.threat_type == m.rule.threat_type
    &&& t.severity == m.rule.severity
    &&& t.file_path@ == file_path
    &&& t.file_hash@ == file_hash
    &&& t.detection_method == DetectionMethod::Heuristic
    &&& forall|k: Seq<char>| #[trigger] lookup(t.additional_info@, k) == match_info(m, rendered.0@, rendered.1@, k)
}

/// Every character of the text is a hexadecimal digit.
pub open spec fn hex_digits_only(h: Seq<char>) -> bool {
    forall|i: int| 0 <= i < h.len() ==> is_hex_digit(#[trigger] h[i])
}

fn all_hex_digits(s: &str) -> (r: bool)
    ensures
        r == hex_digits_only(s@),
{
    let v = chars_of(s);
    let n = v.len();
    for i in 0..n
        invariant
            n == v@.len(),
            v@ == s@,
            forall|j: int| 0 <= j < i ==> is_hex_digit(#[trigger] s@[j]),
    {
        let c = v[i];
        if !(('0' <= c && c <= '9') || ('a' <= c && c <= 'f') || ('A' <= c && c <= 'F')) {
            assert(!is_hex_digit(s@[i as int]));
            return false;
        }
    }
    true
}

fn remove_spaces(s: &str) -> (r: String)
    ensures
        r@ == without_spaces(s@),
{
    let mut r = String::new();
    let n = s.unicode_len();
    let mut i: usize = 0;
    while i < n
        invariant
            n == s@.len(),
            i <= n,
            r@ == without_spaces(s@.take(i as int)),
        decreases n - i,
    {
        let c = s.get_char(i);
        assert(s@.take(i + 1).drop_last() =~= s@.take(i as int));
        if c != ' ' {
            push_char(&mut r, c);
        }
        i = i + 1;
    }
    assert(s@.take(n as int) =~= s@);
    r
}

impl HeuristicAnalyzer {
    /// The threats that the rule matches of a file's analysis report, one
    /// per match, in order: named after the rule, of its type and severity,
    /// detected heuristically, with the lowercased hash, and with the
    /// match's evidence, confidence, rule and conditions as additional
    /// information. `rendered` holds, for each match, its confidence and its
    /// matched conditions as text. The hash must consist of hexadecimal
    /// digits, as a threat's hash does; its length is not checked, so that
    /// a shortened digest is accepted. When there is a match and the hash
    /// holds another character, the conversion fails as building the threat
    /// does.
    pub fn results_to_threats(
        &self,
        results: &HeuristicResult,
        file_path: &str,
        file_hash: &str,
        rendered: &[(String, String)],
    ) -> (r: Result<Vec<ThreatInfo>, AntivirusError>)
        requires
            rendered@.len() == results.rule_matches@.len(),
        ensures
            results.rule_matches@.len() > 0 && !hex_digits_only(file_hash@) ==> (r matches Err(
                AntivirusError::Internal(m),
            ) && m@ == "Invalid file hash format"@),
            results.rule_matches@.len() == 0 || hex_digits_only(file_hash@) ==> (r matches Ok(v)
                && v@.len() == results.rule_matches@.len() && forall|i: int|
                0 <= i < v@.len() ==> threat_of_match(
                    #[trigger] v@[i],
                    results.rule_matches@[i],
                    file_path@,
                    lowercase(file_hash@),
                    rendered@[i],
                )),
    {
        let mut threats: Vec<ThreatInfo> = Vec::new();
        let n = results.rule_matches.len();
        if n > 0 && !all_hex_digits(file_hash) {
            return Err(AntivirusError::Internal(owned("Invalid file hash format")));
        }
        let hash = to_lowercase(file_hash);
        for i in 0..n
            invariant
                n == results.rule_matches@.len(),
                rendered@.len() == n,
                hash@ == lowercase(file_hash@),
                threats@.len() == i,
                forall|j: int|
                    0 <= j < i ==> threat_of_match(
                        #[trigger] threats@[j],
                        results.rule_matches@[j],
                        file_path@,
                        lowercase(file_hash@),
                        rendered@[j],
                    ),
        {
            let m = &results.rule_matches[i];
            let mut name = owned("Heuristic.");
            let compact = remove_spaces(m.rule.name.as_str());
            name.append(compact.as_str());
            let mut info = clone_pairs(m.evidence.as_slice());
            insert_pair(&mut info, owned("confidence"), rendered[i].0.clone());
            insert_pair(&mut info, owned("rule_id"), m.rule.id.clone());
            insert_pair(&mut info, owned("matched_conditions"), rendered[i].1.clone());
            proof {
                reveal_strlit("confidence");
                reveal_strlit("rule_id");
                reveal_strlit("matched_conditions");
            }
            let t = ThreatInfo {
                id: new_id(),
                name,
                threat_type: m.rule.threat_type,
                severity: m.rule.severity,
                file_path: owned(file_path),
                file_hash: owned(hash.as_str()),
                detection_method: DetectionMethod::Heuristic,
                timestamp: now_millis(),
                additional_info: info,
            };
            assert(threat_of_match(t, results.rule_matches@[i as int], file_path@, lowercase(file_hash@), rendered@[i as int]));
            threats.push(t);
        }
        Ok(threats)
    }
}

/// Index of the first rule with the identifier.
pub open spec fn first_with_id(s: Seq<HeuristicRule>, id: Seq<char>) -> Option<int> {
    if exists|i: int| 0 <= i < s.len() && (#[trigger] s[i]).id@ == id {
        Some(choose|i: int| 0 <= i < s.len() && (#[trigger] s[i]).id@ == id && forall|j: int| 0 <= j < i ==> (#[trigger] s[j]).id@ != id)
    } else {
        None
    }
}

proof fn lemma_first_with_id(s: Seq<HeuristicRule>, id: Seq<char>, i: int)
    requires
        0 <= i < s.len(),
        s[i].id@ == id,
        forall|j: int| 0 <= j < i ==> (#[trigger] s[j]).id@ != id,
    ensures
        first_with_id(s, id) == Some(i),
{
    let k = choose|k: int| 0 <= k < s.len() && (#[trigger] s[k]).id@ == id && forall|j: int| 0 <= j < k ==> (#[trigger] s[j]).id@ != id;
    if k < i {
        assert(s[k].id@ != id);
    }
    if k > i {
        assert(s[i].id@ != id);
    }
}

proof fn lemma_no_id(s: Seq<HeuristicRule>, id: Seq<char>)
    requires
        forall|j: int| 0 <= j < s.len() ==> (#[trigger] s[j]).id@ != id,
    ensures
        first_with_id(s, id) is None,
{
}

/// A string list from string slices.
pub fn owned_list(items: &[&str]) -> (r: Vec<String>)
    ensures
        string_views(r@) == Seq::new(items@.len(), |i: int| items@[i]@),
{
    let mut r: Vec<String> = Vec::new();
    let n = items.len();
    for i in 0..n
        invariant
            n == items@.len(),
            r@.len() == i,
            forall|j: int| 0 <= j < i ==> (#[trigger] r@[j])@ == items@[j]@,
    {
        r.push(owned(items[i]));
    }
    assert(string_views(r@) =~= Seq::new(items@.len(), |i: int| items@[i]@));
    r
}

fn make_rule(
    id: &str,
    name: &str,
    description: &str,
    severity: ThreatSeverity,
    threat_type: ThreatType,
    conditions: Vec<HeuristicCondition>,
    weight: u32,
) -> (r: HeuristicRule)
    ensures
        r.id@ == id@,
        r.name@ == name@,
        r.description@ == description@,
        r.severity == severity,
        r.threat_type == threat_type,
        r.conditions == conditions,
        r.weight == weight,
        r.enabled,
{
    HeuristicRule {
        id: owned(id),
        name: owned(name),
        description: owned(description),
        severity,
        threat_type,
        conditions,
        weight,
        enabled: true,
    }
}

/// The rule has the given texts, verdict, weight bits and is enabled.
pub open spec fn rule_is(
    r: HeuristicRule,
    id: Seq<char>,
    name: Seq<char>,
    description: Seq<char>,
    severity: ThreatSeverity,
    threat_type: ThreatType,
    weight: u32,
) -> bool {
    &&& r.id@ == id
    &&& r.name@ == name
    &&& r.description@ == description
    &&& r.severity == severity
    &&& r.threat_type == threat_type
    &&& r.weight == weight
    &&& r.enabled
}

/// The condition looks for the patterns, at least `threshold` of them.
pub open spec fn strings_condition(c: HeuristicCondition, patterns: Seq<Seq<char>>, threshold: usize) -> bool {
    c matches HeuristicCondition::SuspiciousStrings { patterns: p, threshold: t } && string_views(p@)
        == patterns && t == threshold
}

/// The default rules: packed executables, injection imports, injection
/// strings, ransomware strings and keylogger strings.
///
/// The keylogger rule looks for four patterns, two of which must occur:
/// `GetAsyncKeyState`, `SetWindowsHookEx`, `keylog` and `password`. The
/// fourth, `password`, is this library's addition: it makes the rule fire
/// on a text that names keylogging and passwords, as the analyzer's test of
/// rule evaluation expects; it also flags a file that holds `password`
/// beside any one of the other three, which three patterns alone would not.
pub open spec fn default_rules(r: Seq<HeuristicRule>) -> bool {
    &&& r.len() == 5
    &&& rule_is(r[0], "HEUR_001"@, "High Entropy Packed Executable"@,
        "Executable with high entropy indicating packing or encryption"@, ThreatSeverity::Medium,
        ThreatType::Suspicious, 0x3F33_3333)
    &&& r[0].conditions@.len() == 2
    &&& r[0].conditions@[0] matches HeuristicCondition::FileExtension { extensions }
        && string_views(extensions@) == seq!["exe"@, "dll"@]
    &&& r[0].conditions@[1] == HeuristicCondition::Entropy { min: SEVEN, max: EIGHT }
    &&& rule_is(r[1], "HEUR_002"@, "Suspicious API Imports"@,
        "Executable imports suspicious Windows APIs"@, ThreatSeverity::High, ThreatType::Trojan,
        0x3F66_6666)
    &&& r[1].conditions@.len() == 2
    &&& r[1].conditions@[0] matches HeuristicCondition::ImportFunction { dll, function }
        && dll@ == "kernel32.dll"@ && function@ == "CreateRemoteThread"@
    &&& r[1].conditions@[1] matches HeuristicCondition::ImportFunction { dll, function }
        && dll@ == "kernel32.dll"@ && function@ == "WriteProcessMemory"@
    &&& rule_is(r[2], "HEUR_003"@, "Code Injection Patterns"@,
        "Patterns indicating code injection techniques"@, ThreatSeverity::High, ThreatType::Trojan,
        0x3F4C_CCCD)
    &&& r[2].conditions@.len() == 1
    &&& strings_condition(r[2].conditions@[0],
        seq!["VirtualAllocEx"@, "WriteProcessMemory"@, "CreateRemoteThread"@], 2)
    &&& rule_is(r[3], "HEUR_004"@, "Ransomware Indicators"@,
        "Behavioral patterns indicating ransomware"@, ThreatSeverity::Critical,
        ThreatType::Ransomware, 0x3F73_3333)
    &&& r[3].conditions@.len() == 1
    &&& strings_condition(r[3].conditions@[0],
        seq!["CryptEncrypt"@, "CryptGenKey"@, "bitcoin"@, "ransom"@, "decrypt"@], 3)
    &&& rule_is(r[4], "HEUR_005"@, "Keylogger Patterns"@,
        "Patterns indicating keylogging functionality"@, ThreatSeverity::High, ThreatType::Spyware,
        0x3F59_999A)
    &&& r[4].conditions@.len() == 1
    &&& strings_condition(r[4].conditions@[0],
        seq!["GetAsyncKeyState"@, "SetWindowsHookEx"@, "keylog"@, "password"@], 2)
}

/// PE file analyzer
pub struct PEAnalyzer {
    advanced_analyzer: AdvancedPEAnalyzer,
}

impl PEAnalyzer {
    /// A PE analyzer with the built-in tables.
    pub fn new() -> (r: Self)
        ensures
            table_is(r.analyzer().imports_table(), import_table()),
            packers_are(r.analyzer().packers()),
    {
        PEAnalyzer { advanced_analyzer: AdvancedPEAnalyzer::new() }
    }

    /// The analyzer that does the work.
    pub closed spec fn analyzer(&self) -> AdvancedPEAnalyzer {
        self.advanced_analyzer
    }

    /// The byte frequencies of the `.text` and `.data` sections, the basis
    /// of their entropies.
    pub fn section_counts(&self, content: &[u8]) -> (r: (Option<Vec<u64>>, Option<Vec<u64>>))
        ensures
            0x1400 > content@.len() ==> r.0 is None,
            0x1C00 > content@.len() ==> r.1 is None,
            0x1400 <= content@.len() ==> r.0 is Some,
            0x1C00 <= content@.len() ==> r.1 is Some,
    {
        self.advanced_analyzer.section_counts(content)
    }

    /// The analysis of an image's bytes, given its section entropies.
    pub fn analyze_pe_content(&self, content: &[u8], text_entropy: u64, data_entropy: u64) -> (r: PEAnalysisResult)
        ensures
            pe_analysis_of(
                r,
                self.analyzer().imports_table(),
                self.analyzer().packers(),
                content@,
                text_entropy,
                data_entropy,
            ),
    {
        self.advanced_analyzer.analyze_pe_content(content, text_entropy, data_entropy)
    }
}

/// Behavior analyzer
pub struct BehaviorAnalyzer;

impl BehaviorAnalyzer {
    /// A behavior analyzer.
    pub fn new() -> (r: Self) {
        BehaviorAnalyzer
    }

    /// The behavior that static analysis observes: none, with score 0.
    pub fn analyze_behavior(&self, _file_info: &FileInfo) -> (r: BehaviorAnalysisResult)
        ensures
            r.suspicious_behaviors@.len() == 0,
            r.api_calls@.len() == 0,
            r.network_indicators@.len() == 0,
            r.file_operations@.len() == 0,
            r.registry_operations@.len() == 0,
            r.behavior_score == 0,
    {
        BehaviorAnalysisResult {
            suspicious_behaviors: Vec::new(),
            api_calls: Vec::new(),
            network_indicators: Vec::new(),
            file_operations: Vec::new(),
            registry_operations: Vec::new(),
            behavior_score: 0,
        }
    }
}

/// Entropy analyzer
pub struct EntropyAnalyzer;

impl EntropyAnalyzer {
    /// An entropy analyzer.
    pub fn new() -> (r: Self) {
        EntropyAnalyzer
    }

    /// The result for a file of the given entropy (bits, text) and score
    /// (single-precision bits): packed when the entropy exceeds 7.
    pub fn entropy_result(&self, entropy: u64, entropy_text: String, score: u32) -> (r: EntropyAnalysisResult)
        ensures
            r.overall_entropy == entropy,
            r.overall_entropy_text == entropy_text,
            r.section_entropies@.len() == 0,
            r.high_entropy_sections@.len() == 0,
            r.is_packed == crate::float_bits::f64_lt(SEVEN, entropy),
            r.entropy_score == score,
    {
        EntropyAnalysisResult {
            overall_entropy: entropy,
            overall_entropy_text: entropy_text,
            section_entropies: Vec::new(),
            high_entropy_sections: Vec::new(),
            is_packed: crate::float_bits::lt_bits(SEVEN, entropy),
            entropy_score: score,
        }
    }
}

/// String analyzer
pub struct StringAnalyzer;

impl StringAnalyzer {
    /// A string analyzer.
    pub fn new() -> (r: Self) {
        StringAnalyzer
    }

    /// The runs of at least `min_length` printable ASCII bytes in `data`.
    pub fn extract_strings(&self, data: &[u8], min_length: usize) -> (r: Vec<String>)
        ensures
            string_views(r@) == printable_strings(data@, min_length as nat),
    {
        extract_strings(data, min_length)
    }
}

/// The suspicious patterns, their categories and risk levels, in the order
/// in which a string is tested against them.
pub open spec fn suspicious_patterns() -> Seq<(Seq<char>, Seq<char>, u8)> {
    seq![
        ("cmd.exe"@, "Command Execution"@, 8u8),
        ("powershell"@, "PowerShell Execution"@, 7u8),
        ("regedit"@, "Registry Modification"@, 6u8),
        ("keylog"@, "Keylogging"@, 9u8),
        ("password"@, "Password Theft"@, 7u8),
        ("backdoor"@, "Backdoor Functionality"@, 9u8),
        ("rootkit"@, "Rootkit Behavior"@, 9u8),
        ("bitcoin"@, "Cryptocurrency"@, 8u8),
        ("ransom"@, "Ransomware"@, 10u8),
        ("encrypt"@, "Encryption"@, 6u8),
        ("decrypt"@, "Decryption"@, 6u8),
        ("virus"@, "Virus Reference"@, 8u8),
        ("malware"@, "Malware Reference"@, 8u8),
        ("trojan"@, "Trojan Reference"@, 8u8),
    ]
}

/// The first suspicious pattern from `k` on that the lowercased string holds.
pub open spec fn first_pattern(lower: Seq<char>, k: int) -> Option<int>
    decreases 14 - k,
{
    if k < 0 || k >= 14 {
        None
    } else if seq_contains(lower, suspicious_patterns()[k].0) {
        Some(k)
    } else {
        first_pattern(lower, k + 1)
    }
}

/// The suspicious strings found among `strings`: string, category, risk
/// level and description, for each string that holds a pattern.
pub open spec fn suspicious_of(strings: Seq<String>) -> Seq<(Seq<char>, Seq<char>, u8, Seq<char>)>
    decreases strings.len(),
{
    if strings.len() == 0 {
        Seq::empty()
    } else {
        let prior = suspicious_of(strings.drop_last());
        match first_pattern(lowercase(strings.last()@), 0) {
            Some(k) => prior.push((
                strings.last()@,
                suspicious_patterns()[k].1,
                suspicious_patterns()[k].2,
                "Contains suspicious pattern: "@ + suspicious_patterns()[k].0,
            )),
            None => prior,
        }
    }
}

/// The suspicious strings as string, category, risk level and description.
pub open spec fn suspicious_views(v: Seq<SuspiciousString>) -> Seq<(Seq<char>, Seq<char>, u8, Seq<char>)> {
    Seq::new(v.len(), |i: int| (v[i].string@, v[i].category@, v[i].risk_level, v[i].description@))
}

/// The strings that hold, ignoring case, one of the patterns.
pub open spec fn matching(strings: Seq<String>, patterns: Seq<Seq<char>>) -> Seq<Seq<char>>
    decreases strings.len(),
{
    if strings.len() == 0 {
        Seq::empty()
    } else if exists|k: int| 0 <= k < patterns.len() && seq_contains(lowercase(strings.last()@), lowercase(#[trigger] patterns[k])) {
        matching(strings.drop_last(), patterns).push(strings.last()@)
    } else {
        matching(strings.drop_last(), patterns)
    }
}

/// Patterns of cryptographic code.
pub open spec fn crypto_patterns() -> Seq<Seq<char>> {
    seq!["CryptEncrypt"@, "CryptDecrypt"@, "CryptGenKey"@, "AES"@, "RSA"@, "MD5"@, "SHA"@]
}

/// Patterns of network code.
pub open spec fn network_patterns() -> Seq<Seq<char>> {
    seq!["http://"@, "https://"@, "ftp://"@, "socket"@, "connect"@, "send"@, "recv"@]
}

/// Patterns of file-system code.
pub open spec fn file_patterns() -> Seq<Seq<char>> {
    seq!["CreateFile"@, "WriteFile"@, "ReadFile"@, "DeleteFile"@, "MoveFile"@]
}

/// Patterns of registry code.
pub open spec fn registry_patterns() -> Seq<Seq<char>> {
    seq!["RegOpenKey"@, "RegSetValue"@, "RegCreateKey"@, "HKEY_"@, "SOFTWARE\\"@]
}

fn filter_by_patterns(strings: &[String], patterns: &[&str]) -> (r: Vec<String>)
    ensures
        string_views(r@) == matching(strings@, Seq::new(patterns@.len(), |k: int| patterns@[k]@)),
{
    let ghost pats = Seq::new(patterns@.len(), |k: int| patterns@[k]@);
    let mut out: Vec<String> = Vec::new();
    let n = strings.len();
    for i in 0..n
        invariant
            n == strings@.len(),
            pats == Seq::new(patterns@.len(), |k: int| patterns@[k]@),
            string_views(out@) == matching(strings@.take(i as int), pats),
    {
        let s = &strings[i];
        assert(strings@.take(i + 1).drop_last() =~= strings@.take(i as int));
        assert(strings@.take(i + 1).last() == s);
        let mut any = false;
        let mut k: usize = 0;
        while k < patterns.len()
            invariant
                k <= patterns@.len(),
                pats == Seq::new(patterns@.len(), |k: int| patterns@[k]@),
                any == exists|j: int| 0 <= j < k && seq_contains(lowercase(s@), lowercase(#[trigger] pats[j])),
            decreases patterns@.len() - k,
        {
            assert(pats[k as int] == patterns@[k as int]@);
            if lower_contains(s.as_str(), patterns[k]) {
                any = true;
            }
            k = k + 1;
        }
        if any {
            let ghost before = string_views(out@);
            out.push(s.clone());
            assert(string_views(out@) =~= before.push(s@));
        }
    }
    assert(strings@.take(n as int) =~= strings@);
    out
}

/// The risk levels of the strings added up.
pub open spec fn risk_total(ss: Seq<SuspiciousString>) -> nat
    decreases ss.len(),
{
    if ss.len() == 0 {
        0
    } else {
        risk_total(ss.drop_last()) + ss.last().risk_level as nat
    }
}

proof fn lemma_risk_total_mono(ss: Seq<SuspiciousString>, i: int)
    requires
        0 <= i <= ss.len(),
    ensures
        risk_total(ss.take(i)) <= risk_total(ss),
    decreases ss.len() - i,
{
    if i < ss.len() {
        lemma_risk_total_mono(ss, i + 1);
        assert(ss.take(i + 1).drop_last() =~= ss.take(i));
    } else {
        assert(ss.take(i) =~= ss);
    }
}

impl StringAnalyzer {
    /// The strings that hold a suspicious pattern (ignoring case), each with
    /// the first pattern's category and risk level.
    pub fn identify_suspicious_strings(&self, strings: &[String]) -> (r: Vec<SuspiciousString>)
        ensures
            suspicious_views(r@) == suspicious_of(strings@),
    {
        let table: [(&str, &str, u8); 14] = [
            ("cmd.exe", "Command Execution", 8),
            ("powershell", "PowerShell Execution", 7),
            ("regedit", "Registry Modification", 6),
            ("keylog", "Keylogging", 9),
            ("password", "Password Theft", 7),
            ("backdoor", "Backdoor Functionality", 9),
            ("rootkit", "Rootkit Behavior", 9),
            ("bitcoin", "Cryptocurrency", 8),
            ("ransom", "Ransomware", 10),
            ("encrypt", "Encryption", 6),
            ("decrypt", "Decryption", 6),
            ("virus", "Virus Reference", 8),
            ("malware", "Malware Reference", 8),
            ("trojan", "Trojan Reference", 8),
        ];
        assert(forall|k: int| 0 <= k < 14 ==> (#[trigger] table@[k]).0@ == suspicious_patterns()[k].0
            && table@[k].1@ == suspicious_patterns()[k].1 && table@[k].2 == suspicious_patterns()[k].2);
        let mut out: Vec<SuspiciousString> = Vec::new();
        let n = strings.len();
        for i in 0..n
            invariant
                n == strings@.len(),
                forall|k: int| 0 <= k < 14 ==> (#[trigger] table@[k]).0@ == suspicious_patterns()[k].0
                    && table@[k].1@ == suspicious_patterns()[k].1 && table@[k].2 == suspicious_patterns()[k].2,
                suspicious_views(out@) == suspicious_of(strings@.take(i as int)),
        {
            let s = &strings[i];
            assert(strings@.take(i + 1).drop_last() =~= strings@.take(i as int));
            assert(strings@.take(i + 1).last() == s);
            let lower = to_lowercase(s.as_str());
            let mut k: usize = 0;
            let mut hit: Option<usize> = None;
            while k < 14 && hit.is_none()
                invariant
                    k <= 14,
                    lower@ == lowercase(s@),
                    forall|j: int| 0 <= j < 14 ==> (#[trigger] table@[j]).0@ == suspicious_patterns()[j].0
                        && table@[j].1@ == suspicious_patterns()[j].1 && table@[j].2 == suspicious_patterns()[j].2,
                    hit is None ==> first_pattern(lower@, 0) == first_pattern(lower@, k as int),
                    hit matches Some(h) ==> h < 14 && first_pattern(lower@, 0) == Some(h as int),
                decreases 14 - k + (if hit is None { 1int } else { 0int }),
            {
                if str_contains(lower.as_str(), table[k].0) {
                    hit = Some(k);
                } else {
                    k = k + 1;
                }
            }
            match hit {
                Some(h) => {
                    let (pattern, category, risk_level) = table[h];
                    let mut description = owned("Contains suspicious pattern: ");
                    description.append(pattern);
                    let ghost before = suspicious_views(out@);
                    out.push(SuspiciousString {
                        string: s.clone(),
                        category: owned(category),
                        risk_level,
                        description,
                    });
                    assert(suspicious_views(out@) =~= before.push((s@, suspicious_patterns()[h as int].1,
                        suspicious_patterns()[h as int].2, "Contains suspicious pattern: "@ + suspicious_patterns()[h as int].0)));
                },
                None => {},
            }
        }
        assert(strings@.take(n as int) =~= strings@);
        out
    }

    /// The strings that mention cryptography.
    pub fn identify_crypto_strings(&self, strings: &[String]) -> (r: Vec<String>)
        ensures
            string_views(r@) == matching(strings@, crypto_patterns()),
    {
        let p: [&str; 7] = ["CryptEncrypt", "CryptDecrypt", "CryptGenKey", "AES", "RSA", "MD5", "SHA"];
        let r = filter_by_patterns(strings, &p);
        assert(Seq::new(p@.len(), |k: int| p@[k]@) =~= crypto_patterns());
        r
    }

    /// The strings that mention networking.
    pub fn identify_network_strings(&self, strings: &[String]) -> (r: Vec<String>)
        ensures
            string_views(r@) == matching(strings@, network_patterns()),
    {
        let p: [&str; 7] = ["http://", "https://", "ftp://", "socket", "connect", "send", "recv"];
        let r = filter_by_patterns(strings, &p);
        assert(Seq::new(p@.len(), |k: int| p@[k]@) =~= network_patterns());
        r
    }

    /// The strings that mention file operations.
    pub fn identify_file_strings(&self, strings: &[String]) -> (r: Vec<String>)
        ensures
            string_views(r@) == matching(strings@, file_patterns()),
    {
        let p: [&str; 5] = ["CreateFile", "WriteFile", "ReadFile", "DeleteFile", "MoveFile"];
        let r = filter_by_patterns(strings, &p);
        assert(Seq::new(p@.len(), |k: int| p@[k]@) =~= file_patterns());
        r
    }

    /// The strings that mention the registry.
    pub fn identify_registry_strings(&self, strings: &[String]) -> (r: Vec<String>)
        ensures
            string_views(r@) == matching(strings@, registry_patterns()),
    {
        let p: [&str; 5] = ["RegOpenKey", "RegSetValue", "RegCreateKey", "HKEY_", "SOFTWARE\\"];
        let r = filter_by_patterns(strings, &p);
        assert(Seq::new(p@.len(), |k: int| p@[k]@) =~= registry_patterns());
        r
    }
    /// The two terms of the string score, the summed risk levels and the
    /// most they could add up to (ten per string); the score is their
    /// quotient, zero when there are no strings.
    pub fn string_score_parts(&self, suspicious_strings: &[SuspiciousString]) -> (r: (u32, u32))
        requires
            risk_total(suspicious_strings@) <= u32::MAX,
            suspicious_strings@.len() * 10 <= u32::MAX,
        ensures
            r.0 == risk_total(suspicious_strings@),
            r.1 == suspicious_strings@.len() * 10,
    {
        let mut total: u32 = 0;
        let n = suspicious_strings.len();
        assert(suspicious_strings@.take(0) =~= Seq::<SuspiciousString>::empty());
        for i in 0..n
            invariant
                n == suspicious_strings@.len(),
                total == risk_total(suspicious_strings@.take(i as int)),
                risk_total(suspicious_strings@) <= u32::MAX,
        {
            proof {
                assert(suspicious_strings@.take(i + 1).drop_last() =~= suspicious_strings@.take(i as int));
                lemma_risk_total_mono(suspicious_strings@, i + 1);
            }
            total = total + suspicious_strings[i].risk_level as u32;
        }
        assert(suspicious_strings@.take(n as int) =~= suspicious_strings@);
        (total, (n as u32) * 10)
    }
}

} // verus!
