//! The signature database's reading of rule metadata: `key = "value"`
//! lines, threat types and severities, and the records of matches and of a
//! compilation.
use vstd::prelude::*;
use crate::text::{
    chars_of, find_in, find_str, lemma_find_in, lines_of, lowercase, seq_starts_with, split_trimmed, str_eq,
    str_starts_with, string_from_chars, text_lines, text_views, to_lowercase, trim, trim_str,
    trimmed_pieces, words, words_of,
};
use crate::error::{AntivirusError, ScanEngineError};
use crate::paths::{extension, extension_of};
use crate::file_utils::{hex_lower, lemma_hex_lower_digits, sha256_digest, sha256_of, to_hex};
use crate::heuristic::clone_strings;
use crate::types::{
    threat_built, threat_error, threat_type_name, valid_hash, DetectionMethod, ThreatInfo, ThreatSeverity, ThreatType,
    Timestamp,
};

verus! {

/// Metadata for a signature
#[derive(Debug)]
pub struct SignatureMetadata {
    pub name: String,
    pub threat_type: ThreatType,
    pub severity: ThreatSeverity,
    pub description: String,
    pub author: String,
    pub date: Timestamp,
    pub version: String,
    pub tags: Vec<String>,
    pub references: Vec<String>,
}

/// Signature match result
#[derive(Debug, Clone)]
pub struct SignatureMatch {
    pub rule_name: String,
    pub metadata: SignatureMetadata,
    pub matches: Vec<MatchInstance>,
}

/// Individual match instance
#[derive(Debug, Clone)]
pub struct MatchInstance {
    pub offset: u64,
    pub length: u64,
    pub matched_data: Vec<u8>,
    pub string_identifier: Option<String>,
}

/// A rule that matched, as the matcher reports it: the rule's identifier
/// and where its strings matched.
#[derive(Debug, Clone)]
pub struct RuleHit {
    pub identifier: String,
    pub strings: Vec<MatchInstance>,
}

/// The matches reported for the hits: one per hit whose rule has known
/// metadata, in order, with that metadata and the hit's string matches.
pub open spec fn collected(records: Seq<MetaRecord>, hits: Seq<RuleHit>) -> Seq<(Seq<char>, MetaRecord, Seq<MatchInstance>)>
    decreases hits.len(),
{
    if hits.len() == 0 {
        Seq::empty()
    } else {
        let rest = collected(records, hits.drop_last());
        let h = hits.last();
        match meta_named(records, h.identifier@) {
            Some(m) => rest.push((h.identifier@, m, h.strings@)),
            None => rest,
        }
    }
}

/// The views of a sequence of matches.
pub open spec fn match_views(v: Seq<SignatureMatch>) -> Seq<(Seq<char>, MetaRecord, Seq<MatchInstance>)> {
    Seq::new(v.len(), |i: int| (v[i].rule_name@, v[i].metadata@, v[i].matches@))
}

/// What loading one rules file gave: the metadata of its rules, and
/// whether the matcher accepted the file. A file that could not be read
/// gives no metadata and is not accepted.
#[derive(Debug)]
pub struct RulesFileLoad {
    pub metadata: Vec<SignatureMetadata>,
    pub accepted: bool,
}

/// The metadata of all the files, in order.
pub open spec fn all_records(files: Seq<RulesFileLoad>) -> Seq<MetaRecord>
    decreases files.len(),
{
    if files.len() == 0 {
        Seq::empty()
    } else {
        all_records(files.drop_last()) + record_views(files.last().metadata@)
    }
}

/// The rules of the accepted files, counted.
pub open spec fn accepted_rules(files: Seq<RulesFileLoad>) -> nat
    decreases files.len(),
{
    if files.len() == 0 {
        0
    } else {
        accepted_rules(files.drop_last()) + if files.last().accepted { files.last().metadata@.len() } else { 0 }
    }
}

/// The files that were not accepted, counted.
pub open spec fn failed_files(files: Seq<RulesFileLoad>) -> nat
    decreases files.len(),
{
    if files.len() == 0 {
        0
    } else {
        failed_files(files.drop_last()) + if files.last().accepted { 0nat } else { 1nat }
    }
}

proof fn lemma_without_name_len(v: Seq<MetaRecord>, name: Seq<char>)
    ensures
        without_name(v, name).len() <= v.len(),
    decreases v.len(),
{
    if v.len() > 0 {
        lemma_without_name_len(v.drop_last(), name);
    }
}

proof fn lemma_stored_len(v: Seq<MetaRecord>)
    ensures
        stored(v).len() <= v.len(),
    decreases v.len(),
{
    if v.len() > 0 {
        lemma_stored_len(v.drop_last());
        lemma_without_name_len(stored(v.drop_last()), v.last().name);
    }
}

proof fn lemma_counts_mono(files: Seq<RulesFileLoad>, i: int)
    requires
        0 <= i <= files.len(),
    ensures
        accepted_rules(files.take(i)) <= accepted_rules(files),
        failed_files(files.take(i)) <= failed_files(files),
    decreases files.len() - i,
{
    if i < files.len() {
        lemma_counts_mono(files, i + 1);
        assert(files.take(i + 1).drop_last() =~= files.take(i));
    } else {
        assert(files.take(i) =~= files);
    }
}

/// The `.yar` files among the paths, in order.
pub open spec fn yar_paths(paths: Seq<String>) -> Seq<Seq<char>>
    decreases paths.len(),
{
    if paths.len() == 0 {
        Seq::empty()
    } else if extension(paths.last()@) == Some("yar"@) {
        yar_paths(paths.drop_last()).push(paths.last()@)
    } else {
        yar_paths(paths.drop_last())
    }
}

/// Signature compilation statistics
#[derive(Debug, Clone, Copy, PartialEq, Eq, Structural)]
pub struct CompilationStats {
    pub total_rules: u32,
    pub compiled_rules: u32,
    pub failed_rules: u32,
    pub compilation_time_ms: u64,
    pub memory_usage_bytes: u64,
}

/// The threat type that a metadata value names, ignoring case.
pub open spec fn threat_type_named(lower: Seq<char>) -> ThreatType {
    if lower == "virus"@ {
        ThreatType::Virus
    } else if lower == "trojan"@ {
        ThreatType::Trojan
    } else if lower == "rootkit"@ {
        ThreatType::Rootkit
    } else if lower == "spyware"@ {
        ThreatType::Spyware
    } else if lower == "adware"@ {
        ThreatType::Adware
    } else if lower == "ransomware"@ {
        ThreatType::Ransomware
    } else if lower == "suspicious"@ {
        ThreatType::Suspicious
    } else {
        ThreatType::Unknown
    }
}

/// The text with its ASCII capital letters made small.
pub open spec fn ascii_lowercase(s: Seq<char>) -> Seq<char> {
    Seq::new(s.len(), |i: int| if 'A' <= s[i] <= 'Z' { ((s[i] as u32) + 32) as char } else { s[i] })
}

/// Every named threat type is parsed back from its name written in small
/// letters, and a value parses to a named type only when it is that type's
/// name in small letters: the names of the threat types other than
/// `Unknown` are exactly the values that do not give `Unknown`.
pub proof fn lemma_threat_type_names_round_trip(t: ThreatType, lower: Seq<char>)
    ensures
        t != ThreatType::Unknown ==> threat_type_named(ascii_lowercase(threat_type_name(t))) == t,
        threat_type_named(lower) != ThreatType::Unknown ==> lower == ascii_lowercase(
            threat_type_name(threat_type_named(lower)),
        ),
{
    reveal_strlit("Virus");
    reveal_strlit("Trojan");
    reveal_strlit("Rootkit");
    reveal_strlit("Spyware");
    reveal_strlit("Adware");
    reveal_strlit("Ransomware");
    reveal_strlit("Suspicious");
    reveal_strlit("virus");
    reveal_strlit("trojan");
    reveal_strlit("rootkit");
    reveal_strlit("spyware");
    reveal_strlit("adware");
    reveal_strlit("ransomware");
    reveal_strlit("suspicious");
    assert(ascii_lowercase("Virus"@) =~= "virus"@);
    assert(ascii_lowercase("Trojan"@) =~= "trojan"@);
    assert(ascii_lowercase("Rootkit"@) =~= "rootkit"@);
    assert(ascii_lowercase("Spyware"@) =~= "spyware"@);
    assert(ascii_lowercase("Adware"@) =~= "adware"@);
    assert(ascii_lowercase("Ransomware"@) =~= "ransomware"@);
    assert(ascii_lowercase("Suspicious"@) =~= "suspicious"@);
    let x = ascii_lowercase(threat_type_name(t));
    match t {
        ThreatType::Trojan => {
            assert(x[0] != "virus"@[0]);
        },
        ThreatType::Rootkit => {
            assert(x[0] != "virus"@[0] && x[0] != "trojan"@[0]);
        },
        ThreatType::Spyware => {
            assert(x[0] != "virus"@[0] && x[0] != "trojan"@[0] && x[0] != "rootkit"@[0]);
        },
        ThreatType::Adware => {
            assert(x[0] != "virus"@[0] && x[0] != "trojan"@[0] && x[0] != "rootkit"@[0] && x[0] != "spyware"@[0]);
        },
        ThreatType::Ransomware => {
            assert(x[0] != "virus"@[0] && x[0] != "trojan"@[0] && x[1] != "rootkit"@[1] && x[0] != "spyware"@[0]
                && x[0] != "adware"@[0]);
        },
        ThreatType::Suspicious => {
            assert(x[0] != "virus"@[0] && x[0] != "trojan"@[0] && x[0] != "rootkit"@[0] && x[1] != "spyware"@[1]
                && x[0] != "adware"@[0] && x[0] != "ransomware"@[0]);
        },
        _ => {},
    }
}

/// The severity that a metadata value names, ignoring case; medium when it
/// names none.
pub open spec fn severity_named(lower: Seq<char>) -> ThreatSeverity {
    if lower == "low"@ {
        ThreatSeverity::Low
    } else if lower == "medium"@ {
        ThreatSeverity::Medium
    } else if lower == "high"@ {
        ThreatSeverity::High
    } else if lower == "critical"@ {
        ThreatSeverity::Critical
    } else {
        ThreatSeverity::Medium
    }
}

/// Index of the first `c` in `s`, if any.
pub open spec fn first_index(s: Seq<char>, c: char) -> Option<int> {
    if exists|i: int| 0 <= i < s.len() && s[i] == c {
        Some(choose|i: int| 0 <= i < s.len() && s[i] == c && forall|j: int| 0 <= j < i ==> s[j] != c)
    } else {
        None
    }
}

/// `s` without its leading `c` characters.
pub open spec fn strip_front(s: Seq<char>, c: char) -> Seq<char>
    decreases s.len(),
{
    if s.len() > 0 && s[0] == c {
        strip_front(s.drop_first(), c)
    } else {
        s
    }
}

/// `s` without its trailing `c` characters.
pub open spec fn strip_back(s: Seq<char>, c: char) -> Seq<char>
    decreases s.len(),
{
    if s.len() > 0 && s.last() == c {
        strip_back(s.drop_last(), c)
    } else {
        s
    }
}

/// `str::trim_matches` with one character: leading and trailing copies go.
pub open spec fn strip_both(s: Seq<char>, c: char) -> Seq<char> {
    strip_back(strip_front(s, c), c)
}

/// A metadata line read as key and value: the text before the first `=`,
/// trimmed, and the text after it, trimmed and unquoted.
pub open spec fn meta_line(line: Seq<char>) -> Option<(Seq<char>, Seq<char>)> {
    match first_index(line, '=') {
        Some(i) => Some((trim(line.subrange(0, i)), strip_both(trim(line.subrange(i + 1, line.len() as int)), '"'))),
        None => None,
    }
}

fn strip_quotes(s: &str) -> (r: String)
    ensures
        r@ == strip_both(s@, '"'),
{
    let v = chars_of(s);
    let n = v.len();
    let mut a: usize = 0;
    assert(v@.skip(0) =~= v@);
    while a < n && v[a] == '"'
        invariant
            n == v@.len(),
            a <= n,
            strip_front(v@, '"') == strip_front(v@.skip(a as int), '"'),
        decreases n - a,
    {
        assert(v@.skip(a as int).drop_first() =~= v@.skip(a + 1));
        a = a + 1;
    }
    let ghost t = v@.skip(a as int);
    assert(strip_front(t, '"') == t);
    let mut b: usize = n;
    assert(v@.subrange(a as int, n as int) =~= t);
    while b > a && v[b - 1] == '"'
        invariant
            n == v@.len(),
            a <= b <= n,
            strip_back(t, '"') == strip_back(v@.subrange(a as int, b as int), '"'),
        decreases b - a,
    {
        assert(v@.subrange(a as int, b as int).drop_last() =~= v@.subrange(a as int, b - 1));
        b = b - 1;
    }
    let mut out: Vec<char> = Vec::new();
    for i in a..b
        invariant
            a <= b <= v@.len(),
            out@ == v@.subrange(a as int, i as int),
    {
        out.push(v[i]);
        assert(out@ =~= v@.subrange(a as int, i + 1));
    }
    string_from_chars(out.as_slice())
}

/// Reads a metadata line.
pub fn parse_meta_line(line: &str) -> (r: Option<(String, String)>)
    ensures
        match r {
            Some(kv) => meta_line(line@) == Some((kv.0@, kv.1@)),
            None => meta_line(line@) is None,
        },
{
    let v = chars_of(line);
    let n = v.len();
    let mut i: usize = 0;
    while i < n && v[i] != '='
        invariant
            n == v@.len(),
            i <= n,
            forall|j: int| 0 <= j < i ==> v@[j] != '=',
        decreases n - i,
    {
        i = i + 1;
    }
    if i == n {
        assert(first_index(line@, '=') is None);
        return None;
    }
    proof {
        let k = choose|k: int| 0 <= k < line@.len() && line@[k] == '=' && forall|j: int| 0 <= j < k ==> line@[j] != '=';
        if k < i {
            assert(v@[k] != '=');
        }
        if k > i {
            assert(line@[i as int] == '=');
        }
    }
    let mut key_chars: Vec<char> = Vec::new();
    for j in 0..i
        invariant
            i < v@.len(),
            key_chars@ == v@.subrange(0, j as int),
    {
        key_chars.push(v[j]);
        assert(key_chars@ =~= v@.subrange(0, j + 1));
    }
    let mut val_chars: Vec<char> = Vec::new();
    for j in i + 1..n
        invariant
            i < n,
            n == v@.len(),
            val_chars@ == v@.subrange(i + 1, j as int),
    {
        val_chars.push(v[j]);
        assert(val_chars@ =~= v@.subrange(i + 1, j + 1));
    }
    let key_raw = string_from_chars(key_chars.as_slice());
    let val_raw = string_from_chars(val_chars.as_slice());
    let key = trim_str(key_raw.as_str());
    let val_trimmed = trim_str(val_raw.as_str());
    let value = strip_quotes(val_trimmed.as_str());
    Some((key, value))
}

/// The threat type that a metadata value names.
pub fn parse_threat_type(value: &str) -> (r: ThreatType)
    ensures
        r == threat_type_named(lowercase(value@)),
{
    let lower = to_lowercase(value);
    let l = lower.as_str();
    if str_eq(l, "virus") {
        ThreatType::Virus
    } else if str_eq(l, "trojan") {
        ThreatType::Trojan
    } else if str_eq(l, "rootkit") {
        ThreatType::Rootkit
    } else if str_eq(l, "spyware") {
        ThreatType::Spyware
    } else if str_eq(l, "adware") {
        ThreatType::Adware
    } else if str_eq(l, "ransomware") {
        ThreatType::Ransomware
    } else if str_eq(l, "suspicious") {
        ThreatType::Suspicious
    } else {
        ThreatType::Unknown
    }
}

/// The severity that a metadata value names.
pub fn parse_severity(value: &str) -> (r: ThreatSeverity)
    ensures
        r == severity_named(lowercase(value@)),
{
    let lower = to_lowercase(value);
    let l = lower.as_str();
    if str_eq(l, "low") {
        ThreatSeverity::Low
    } else if str_eq(l, "medium") {
        ThreatSeverity::Medium
    } else if str_eq(l, "high") {
        ThreatSeverity::High
    } else if str_eq(l, "critical") {
        ThreatSeverity::Critical
    } else {
        ThreatSeverity::Medium
    }
}

/// The compilation record of a load: the rules found, those of the files
/// that failed, the time taken and the memory estimate.
pub fn compilation_stats(total_rules: u32, failed_rules: u32, compilation_time_ms: u64, memory_usage_bytes: u64) -> (r: CompilationStats)
    requires
        failed_rules <= total_rules,
    ensures
        r == (CompilationStats {
            total_rules,
            compiled_rules: (total_rules - failed_rules) as u32,
            failed_rules,
            compilation_time_ms,
            memory_usage_bytes,
        }),
{
    CompilationStats {
        total_rules,
        compiled_rules: total_rules - failed_rules,
        failed_rules,
        compilation_time_ms,
        memory_usage_bytes,
    }
}

/// What the metadata lines of a rule give, as read so far.
pub struct MetaFields {
    pub threat_type: ThreatType,
    pub severity: ThreatSeverity,
    pub description: Seq<char>,
    pub author: Seq<char>,
    pub version: Seq<char>,
    pub tags: Seq<Seq<char>>,
    pub references: Seq<Seq<char>>,
}

/// The metadata before any line is read: unknown type, medium severity, no
/// description, unknown author, version 1.0, no tags or references.
pub open spec fn initial_meta() -> MetaFields {
    MetaFields {
        threat_type: ThreatType::Unknown,
        severity: ThreatSeverity::Medium,
        description: Seq::empty(),
        author: "Unknown"@,
        version: "1.0"@,
        tags: Seq::empty(),
        references: Seq::empty(),
    }
}

/// The metadata after one more line, trimmed, is read.
pub open spec fn apply_meta(m: MetaFields, line: Seq<char>) -> MetaFields {
    match meta_line(trim(line)) {
        Some(kv) => if kv.0 == "description"@ {
            MetaFields { description: kv.1, ..m }
        } else if kv.0 == "author"@ {
            MetaFields { author: kv.1, ..m }
        } else if kv.0 == "version"@ {
            MetaFields { version: kv.1, ..m }
        } else if kv.0 == "threat_type"@ {
            MetaFields { threat_type: threat_type_named(lowercase(kv.1)), ..m }
        } else if kv.0 == "severity"@ {
            MetaFields { severity: severity_named(lowercase(kv.1)), ..m }
        } else if kv.0 == "tags"@ {
            MetaFields { tags: trimmed_pieces(kv.1, ','), ..m }
        } else if kv.0 == "reference"@ {
            MetaFields { references: m.references.push(kv.1), ..m }
        } else {
            m
        },
        None => m,
    }
}

/// The metadata that the lines give, read in order.
pub open spec fn read_meta(lines: Seq<Seq<char>>) -> MetaFields
    decreases lines.len(),
{
    if lines.len() == 0 {
        initial_meta()
    } else {
        apply_meta(read_meta(lines.drop_last()), lines.last())
    }
}

/// The name that a `rule` line declares: the first word after `rule ` in
/// the trimmed line, without trailing braces.
pub open spec fn rule_name_of(rule_line: Seq<char>) -> Option<Seq<char>> {
    let t = trim(rule_line);
    if seq_starts_with(t, "rule "@) && words(t.skip(5)).len() > 0 {
        Some(strip_back(words(t.skip(5))[0], '{'))
    } else {
        None
    }
}

/// The rules text from the first occurrence of the rule's line on.
pub open spec fn rule_section(content: Seq<char>, rule_line: Seq<char>) -> Option<Seq<char>> {
    match find_in(content, rule_line) {
        Some(i) => Some(content.skip(i)),
        None => None,
    }
}

/// Where a rule's metadata ends: at the first `strings:`, else at the first
/// `condition:`, else at the end.
pub open spec fn meta_end(section: Seq<char>) -> int {
    match find_in(section, "strings:"@) {
        Some(e) => e,
        None => match find_in(section, "condition:"@) {
            Some(e) => e,
            None => section.len() as int,
        },
    }
}

/// The rule's metadata section can be cut out: where both are found, it does
/// not end before it starts.
pub open spec fn meta_section_ordered(content: Seq<char>, rule_line: Seq<char>) -> bool {
    match rule_section(content, rule_line) {
        Some(sec) => match find_in(sec, "meta:"@) {
            Some(ms) => ms <= meta_end(sec),
            None => true,
        },
        None => true,
    }
}

/// The rule's metadata section: from its first `meta:` to where the
/// metadata ends.
pub open spec fn meta_section(content: Seq<char>, rule_line: Seq<char>) -> Option<Seq<char>> {
    match rule_section(content, rule_line) {
        Some(sec) => match find_in(sec, "meta:"@) {
            Some(ms) => Some(sec.subrange(ms, meta_end(sec))),
            None => None,
        },
        None => None,
    }
}

/// The metadata of the rule named `name`, read from its metadata lines, on
/// `now`.
pub open spec fn metadata_read(m: SignatureMetadata, name: Seq<char>, f: MetaFields, now: Timestamp) -> bool {
    &&& m.name@ == name
    &&& m.threat_type == f.threat_type
    &&& m.severity == f.severity
    &&& m.description@ == f.description
    &&& m.author@ == f.author
    &&& m.date == now
    &&& m.version@ == f.version
    &&& text_views(m.tags@) == f.tags
    &&& text_views(m.references@) == f.references
}

/// The metadata of the rule that `rule_line` declares in `content`, read on
/// `now`.
pub open spec fn rule_metadata(m: SignatureMetadata, content: Seq<char>, rule_line: Seq<char>, now: Timestamp) -> bool {
    metadata_read(m, rule_name_of(rule_line)->0, read_meta(text_lines(meta_section(content, rule_line)->0)), now)
}

/// The lines of the rules text that declare a rule with metadata, in order.
pub open spec fn rule_lines(lines: Seq<Seq<char>>, content: Seq<char>) -> Seq<Seq<char>>
    decreases lines.len(),
{
    if lines.len() == 0 {
        Seq::empty()
    } else if seq_starts_with(trim(lines.last()), "rule "@) && rule_name_of(lines.last()) is Some
        && meta_section(content, lines.last()) is Some {
        rule_lines(lines.drop_last(), content).push(lines.last())
    } else {
        rule_lines(lines.drop_last(), content)
    }
}

/// Every rule line of the text has a metadata section that can be cut out.
pub open spec fn rules_ordered(content: Seq<char>) -> bool {
    forall|i: int| 0 <= i < text_lines(content).len() && rule_name_of(#[trigger] text_lines(content)[i]) is Some
        ==> meta_section_ordered(content, text_lines(content)[i])
}

fn skip_chars(s: &str, k: usize) -> (r: String)
    requires
        k <= s@.len(),
    ensures
        r@ == s@.skip(k as int),
{
    let v = chars_of(s);
    slice_of(&v, k, v.len())
}

fn slice_of(v: &Vec<char>, a: usize, b: usize) -> (r: String)
    requires
        a <= b <= v@.len(),
    ensures
        r@ == v@.subrange(a as int, b as int),
{
    let mut out: Vec<char> = Vec::new();
    for i in a..b
        invariant
            a <= b <= v@.len(),
            out@ == v@.subrange(a as int, i as int),
    {
        out.push(v[i]);
        assert(out@ =~= v@.subrange(a as int, i + 1));
    }
    string_from_chars(out.as_slice())
}

fn strip_trailing(s: &str, c: char) -> (r: String)
    ensures
        r@ == strip_back(s@, c),
{
    let v = chars_of(s);
    let mut b: usize = v.len();
    assert(v@.subrange(0, b as int) =~= v@);
    while b > 0 && v[b - 1] == c
        invariant
            b <= v@.len(),
            v@ == s@,
            strip_back(s@, c) == strip_back(v@.subrange(0, b as int), c),
        decreases b,
    {
        assert(v@.subrange(0, b as int).drop_last() =~= v@.subrange(0, b - 1));
        b = b - 1;
    }
    slice_of(&v, 0, b)
}

/// Whether the metadata section of the rule that `rule_line` declares in
/// `content` can be cut out (the reading panics where it cannot).
pub fn metadata_section_in_order(content: &str, rule_line: &str) -> (r: bool)
    ensures
        r == meta_section_ordered(content@, rule_line@),
{
    match find_str(content, rule_line) {
        Some(start) => {
            let section = skip_chars(content, start);
            match find_str(section.as_str(), "meta:") {
                Some(ms) => ms <= section_meta_end(section.as_str()),
                None => true,
            }
        },
        None => true,
    }
}

fn section_meta_end(section: &str) -> (r: usize)
    ensures
        r == meta_end(section@),
        r <= section@.len(),
{
    proof {
        lemma_find_in(section@, "strings:"@);
        lemma_find_in(section@, "condition:"@);
    }
    match find_str(section, "strings:") {
        Some(e) => e,
        None => match find_str(section, "condition:") {
            Some(e) => e,
            None => section.unicode_len(),
        },
    }
}

/// Whether the line declares a rule.
fn declares_rule(line: &str) -> (r: bool)
    ensures
        r == rule_name_of(line@) is Some,
{
    proof {
        reveal_strlit("rule ");
    }
    let t = trim_str(line);
    if !str_starts_with(t.as_str(), "rule ") {
        return false;
    }
    let rest = skip_chars(t.as_str(), 5);
    let w = words_of(rest.as_str());
    w.len() > 0
}

/// Whether every rule of the rules text has a metadata section that can be
/// cut out, as reading the metadata of all its rules needs.
pub fn rules_in_order(content: &str) -> (r: bool)
    ensures
        r == rules_ordered(content@),
{
    let lines = lines_of(content);
    let n = lines.len();
    for i in 0..n
        invariant
            n == lines@.len(),
            text_views(lines@) == text_lines(content@),
            forall|j: int| 0 <= j < i && rule_name_of(#[trigger] text_lines(content@)[j]) is Some
                ==> meta_section_ordered(content@, text_lines(content@)[j]),
    {
        assert(text_views(lines@)[i as int] == lines@[i as int]@);
        if declares_rule(lines[i].as_str()) && !metadata_section_in_order(content, lines[i].as_str()) {
            return false;
        }
    }
    true
}

/// Reads the metadata of the rule that `rule_line` declares in `content`:
/// its name, and the `key = "value"` lines of its metadata section, dated
/// `now`. None when the line declares no rule or the rule has no metadata
/// section.
pub fn parse_rule_metadata(content: &str, rule_line: &str, now: Timestamp) -> (r: Option<SignatureMetadata>)
    requires
        rule_name_of(rule_line@) is Some ==> meta_section_ordered(content@, rule_line@),
    ensures
        r is Some <==> rule_name_of(rule_line@) is Some && meta_section(content@, rule_line@) is Some,
        r matches Some(m) ==> rule_metadata(m, content@, rule_line@, now),
{
    proof {
        reveal_strlit("rule ");
    }
    let t = trim_str(rule_line);
    if !str_starts_with(t.as_str(), "rule ") {
        return None;
    }
    let rest = skip_chars(t.as_str(), 5);
    let w = words_of(rest.as_str());
    if w.len() == 0 {
        return None;
    }
    assert(text_views(w@)[0] == w@[0]@);
    let name = strip_trailing(w[0].as_str(), '{');
    let start = match find_str(content, rule_line) {
        Some(i) => i,
        None => {
            return None;
        },
    };
    let section = skip_chars(content, start);
    let ms = match find_str(section.as_str(), "meta:") {
        Some(i) => i,
        None => {
            return None;
        },
    };
    let me = section_meta_end(section.as_str());
    let sv = chars_of(section.as_str());
    let meta = slice_of(&sv, ms, me);
    let lines = lines_of(meta.as_str());
    let mut state = MetaState::initial();
    let n = lines.len();
    assert(text_views(lines@).take(0) =~= Seq::<Seq<char>>::empty());
    for i in 0..n
        invariant
            n == lines@.len(),
            text_views(lines@) == text_lines(meta@),
            state.fields() == read_meta(text_views(lines@).take(i as int)),
    {
        let ghost ls = text_views(lines@);
        assert(ls.take(i + 1).drop_last() =~= ls.take(i as int));
        assert(ls.take(i + 1).last() == lines@[i as int]@);
        state.apply(lines[i].as_str());
    }
    assert(text_views(lines@).take(n as int) =~= text_views(lines@));
    Some(SignatureMetadata {
        name,
        threat_type: state.threat_type,
        severity: state.severity,
        description: state.description,
        author: state.author,
        date: now,
        version: state.version,
        tags: state.tags,
        references: state.references,
    })
}

/// The metadata fields while a rule's lines are read.
struct MetaState {
    threat_type: ThreatType,
    severity: ThreatSeverity,
    description: String,
    author: String,
    version: String,
    tags: Vec<String>,
    references: Vec<String>,
}

impl MetaState {
    spec fn fields(&self) -> MetaFields {
        MetaFields {
            threat_type: self.threat_type,
            severity: self.severity,
            description: self.description@,
            author: self.author@,
            version: self.version@,
            tags: text_views(self.tags@),
            references: text_views(self.references@),
        }
    }

    fn initial() -> (r: MetaState)
        ensures
            r.fields() == initial_meta(),
    {
        let author = crate::text::owned("Unknown");
        let version = crate::text::owned("1.0");
        let r = MetaState {
            threat_type: ThreatType::Unknown,
            severity: ThreatSeverity::Medium,
            description: String::new(),
            author,
            version,
            tags: Vec::new(),
            references: Vec::new(),
        };
        assert(text_views(r.tags@) =~= Seq::<Seq<char>>::empty());
        assert(text_views(r.references@) =~= Seq::<Seq<char>>::empty());
        assert(r.description@ =~= Seq::<char>::empty());
        r
    }

    fn apply(&mut self, line: &str)
        ensures
            final(self).fields() == apply_meta(old(self).fields(), line@),
    {
        let t = trim_str(line);
        match parse_meta_line(t.as_str()) {
            Some(kv) => {
                let (key, value) = kv;
                let k = key.as_str();
                if str_eq(k, "description") {
                    self.description = value;
                } else if str_eq(k, "author") {
                    self.author = value;
                } else if str_eq(k, "version") {
                    self.version = value;
                } else if str_eq(k, "threat_type") {
                    self.threat_type = parse_threat_type(value.as_str());
                } else if str_eq(k, "severity") {
                    self.severity = parse_severity(value.as_str());
                } else if str_eq(k, "tags") {
                    self.tags = split_trimmed(value.as_str(), ',');
                } else if str_eq(k, "reference") {
                    let ghost before = text_views(self.references@);
                    self.references.push(value);
                    assert(text_views(self.references@) =~= before.push(self.references@.last()@));
                }
            },
            None => {},
        }
    }
}

/// The metadata of every rule declared in a rules text, in order of its
/// declaration, dated `now`.
pub fn rules_metadata(content: &str, now: Timestamp) -> (r: Vec<SignatureMetadata>)
    requires
        rules_ordered(content@),
    ensures
        r@.len() == rule_lines(text_lines(content@), content@).len(),
        forall|k: int| 0 <= k < r@.len() ==> rule_metadata(#[trigger] r@[k], content@, rule_lines(text_lines(content@), content@)[k], now),
{
    proof {
        reveal_strlit("rule ");
    }
    let lines = lines_of(content);
    let n = lines.len();
    let mut out: Vec<SignatureMetadata> = Vec::new();
    for i in 0..n
        invariant
            n == lines@.len(),
            text_views(lines@) == text_lines(content@),
            rules_ordered(content@),
            out@.len() == rule_lines(text_views(lines@).take(i as int), content@).len(),
            forall|k: int| 0 <= k < out@.len() ==> rule_metadata(#[trigger] out@[k], content@, rule_lines(text_views(lines@).take(i as int), content@)[k], now),
    {
        let ghost ls = text_views(lines@);
        assert(ls.take(i + 1).drop_last() =~= ls.take(i as int));
        assert(ls.take(i + 1).last() == lines@[i as int]@);
        assert(ls[i as int] == lines@[i as int]@);
        let trimmed = trim_str(lines[i].as_str());
        if str_starts_with(trimmed.as_str(), "rule ") {
            match parse_rule_metadata(content, lines[i].as_str(), now) {
                Some(m) => {
                    out.push(m);
                },
                None => {},
            }
        }
    }
    assert(text_views(lines@).take(n as int) =~= text_views(lines@));
    out
}

/// A signature record as the contracts read it.
pub struct MetaRecord {
    pub name: Seq<char>,
    pub threat_type: ThreatType,
    pub severity: ThreatSeverity,
    pub description: Seq<char>,
    pub author: Seq<char>,
    pub date: Timestamp,
    pub version: Seq<char>,
    pub tags: Seq<Seq<char>>,
    pub references: Seq<Seq<char>>,
}

impl View for SignatureMetadata {
    type V = MetaRecord;

    open spec fn view(&self) -> MetaRecord {
        MetaRecord {
            name: self.name@,
            threat_type: self.threat_type,
            severity: self.severity,
            description: self.description@,
            author: self.author@,
            date: self.date,
            version: self.version@,
            tags: text_views(self.tags@),
            references: text_views(self.references@),
        }
    }
}

/// The views of a sequence of records.
pub open spec fn record_views(v: Seq<SignatureMetadata>) -> Seq<MetaRecord> {
    Seq::new(v.len(), |i: int| v[i]@)
}

impl Clone for SignatureMetadata {
    fn clone(&self) -> (r: Self)
        ensures
            r@ == self@,
    {
        let tags = clone_strings(&self.tags);
        let references = clone_strings(&self.references);
        let r = SignatureMetadata {
            name: self.name.clone(),
            threat_type: self.threat_type,
            severity: self.severity,
            description: self.description.clone(),
            author: self.author.clone(),
            date: self.date,
            version: self.version.clone(),
            tags,
            references,
        };
        assert(text_views(r.tags@) =~= text_views(self.tags@));
        assert(text_views(r.references@) =~= text_views(self.references@));
        r
    }
}

/// The records of `v` other than those named `name`, in order.
pub open spec fn without_name(v: Seq<MetaRecord>, name: Seq<char>) -> Seq<MetaRecord>
    decreases v.len(),
{
    if v.len() == 0 {
        Seq::empty()
    } else if v.last().name == name {
        without_name(v.drop_last(), name)
    } else {
        without_name(v.drop_last(), name).push(v.last())
    }
}

/// The records after `entries` were stored in turn by name, a later record
/// replacing an earlier one of the same name.
pub open spec fn stored(entries: Seq<MetaRecord>) -> Seq<MetaRecord>
    decreases entries.len(),
{
    if entries.len() == 0 {
        Seq::empty()
    } else {
        without_name(stored(entries.drop_last()), entries.last().name).push(entries.last())
    }
}

/// The last record named `name` in `v`.
pub open spec fn meta_named(v: Seq<MetaRecord>, name: Seq<char>) -> Option<MetaRecord>
    decreases v.len(),
{
    if v.len() == 0 {
        None
    } else if v.last().name == name {
        Some(v.last())
    } else {
        meta_named(v.drop_last(), name)
    }
}

/// How many records of `v` have the threat type.
pub open spec fn type_count(v: Seq<MetaRecord>, t: ThreatType) -> nat
    decreases v.len(),
{
    if v.len() == 0 {
        0
    } else {
        type_count(v.drop_last(), t) + if v.last().threat_type == t { 1nat } else { 0nat }
    }
}

/// How many records of `v` have the severity.
pub open spec fn severity_count(v: Seq<MetaRecord>, s: ThreatSeverity) -> nat
    decreases v.len(),
{
    if v.len() == 0 {
        0
    } else {
        severity_count(v.drop_last(), s) + if v.last().severity == s { 1nat } else { 0nat }
    }
}

/// Statistics of the signature database. The distributions list each
/// threat type and severity that occurs with its count.
#[derive(Debug, Clone)]
pub struct DatabaseStatistics {
    pub total_signatures: u32,
    pub version: String,
    pub last_update: Option<Timestamp>,
    pub threat_type_distribution: Vec<(ThreatType, u32)>,
    pub severity_distribution: Vec<(ThreatSeverity, u32)>,
    pub memory_usage_bytes: u64,
}

/// The signature database: the metadata of the loaded rules by name, its
/// version, when it was last loaded, where it lives, and whether compiled
/// rules are in place.
pub struct SignatureDatabase {
    signatures: Vec<SignatureMetadata>,
    version: String,
    last_update: Option<Timestamp>,
    database_path: String,
    loaded: bool,
}

impl SignatureDatabase {
    /// The stored metadata, by name.
    pub closed spec fn records(&self) -> Seq<MetaRecord> {
        record_views(self.signatures@)
    }

    /// Whether compiled rules are in place.
    pub closed spec fn spec_loaded(&self) -> bool {
        self.loaded
    }

    /// The database version.
    pub closed spec fn spec_version(&self) -> Seq<char> {
        self.version@
    }

    /// When the database was last loaded.
    pub closed spec fn spec_last_update(&self) -> Option<Timestamp> {
        self.last_update
    }

    /// Where the database lives.
    pub closed spec fn path(&self) -> Seq<char> {
        self.database_path@
    }

    /// An empty database at `database_path`, version 0.0.0, not loaded.
    pub fn new(database_path: String) -> (r: Self)
        ensures
            !r.spec_loaded(),
            r.spec_version() == "0.0.0"@,
            r.records().len() == 0,
            r.spec_last_update() is None,
            r.path() == database_path@,
    {
        let mut version = String::new();
        version.append("0.0.0");
        proof {
            reveal_strlit("0.0.0");
        }
        let r = SignatureDatabase { signatures: Vec::new(), version, last_update: None, database_path, loaded: false };
        assert(r.records() =~= Seq::<MetaRecord>::empty());
        r
    }

    /// Where the database lives.
    pub fn database_path(&self) -> (r: &String)
        ensures
            r@ == self.path(),
    {
        &self.database_path
    }

    /// Whether compiled rules are in place.
    pub fn is_loaded(&self) -> (r: bool)
        ensures
            r == self.spec_loaded(),
    {
        self.loaded
    }

    /// The database version.
    pub fn get_version(&self) -> (r: String)
        ensures
            r@ == self.spec_version(),
    {
        self.version.clone()
    }

    /// Sets the database version.
    pub fn set_version(&mut self, version: String)
        ensures
            final(self).spec_version() == version@,
            final(self).records() == old(self).records(),
            final(self).spec_loaded() == old(self).spec_loaded(),
            final(self).spec_last_update() == old(self).spec_last_update(),
    {
        self.version = version;
    }

    /// Puts the metadata of a successful load in place, by name, with the
    /// compiled rules, dated `now`.
    pub fn install_signatures(&mut self, entries: Vec<SignatureMetadata>, now: Timestamp)
        ensures
            final(self).records() == stored(record_views(entries@)),
            final(self).spec_loaded(),
            final(self).spec_last_update() == Some(now),
            final(self).spec_version() == old(self).spec_version(),
    {
        let mut v: Vec<SignatureMetadata> = Vec::new();
        let n = entries.len();
        assert(record_views(entries@).take(0) =~= Seq::<MetaRecord>::empty());
        assert(record_views(v@) =~= Seq::<MetaRecord>::empty());
        for i in 0..n
            invariant
                n == entries@.len(),
                record_views(v@) == stored(record_views(entries@).take(i as int)),
        {
            let ghost es = record_views(entries@);
            assert(es.take(i + 1).drop_last() =~= es.take(i as int));
            assert(es.take(i + 1).last() == entries@[i as int]@);
            let name = entries[i].name.as_str();
            let mut kept: Vec<SignatureMetadata> = Vec::new();
            let mut j: usize = 0;
            let old_v = v;
            let ghost base = record_views(old_v@);
            assert(base.take(0) =~= Seq::<MetaRecord>::empty());
            assert(record_views(kept@) =~= Seq::<MetaRecord>::empty());
            while j < old_v.len()
                invariant
                    base == record_views(old_v@),
                    j <= old_v@.len(),
                    name@ == entries@[i as int].name@,
                    record_views(kept@) == without_name(base.take(j as int), name@),
                decreases old_v@.len() - j,
            {
                assert(base.take(j + 1).drop_last() =~= base.take(j as int));
                assert(base.take(j + 1).last() == old_v@[j as int]@);
                if !str_eq(old_v[j].name.as_str(), name) {
                    let ghost before = record_views(kept@);
                    kept.push(old_v[j].clone());
                    assert(record_views(kept@) =~= before.push(old_v@[j as int]@));
                }
                j = j + 1;
            }
            assert(base.take(base.len() as int) =~= base);
            let ghost before = record_views(kept@);
            kept.push(entries[i].clone());
            assert(record_views(kept@) =~= before.push(entries@[i as int]@));
            v = kept;
        }
        assert(record_views(entries@).take(n as int) =~= record_views(entries@));
        self.signatures = v;
        self.loaded = true;
        self.last_update = Some(now);
    }

    /// Puts the metadata of every file in place, by name, dated `now`, and
    /// gives the statistics of the load: the rules of the accepted files,
    /// the files that failed, the rules compiled (the first less the
    /// second), the time the compilation took and the memory estimate.
    pub fn load_signatures(&mut self, files: Vec<RulesFileLoad>, now: Timestamp, compilation_time_ms: u64, base_size: u64) -> (r: CompilationStats)
        requires
            accepted_rules(files@) <= u32::MAX,
            failed_files(files@) <= accepted_rules(files@),
            base_size + all_records(files@).len() * 1024 <= u64::MAX,
        ensures
            final(self).records() == stored(all_records(files@)),
            final(self).spec_loaded(),
            final(self).spec_last_update() == Some(now),
            final(self).spec_version() == old(self).spec_version(),
            r.total_rules == accepted_rules(files@),
            r.failed_rules == failed_files(files@),
            r.compiled_rules == accepted_rules(files@) - failed_files(files@),
            r.compilation_time_ms == compilation_time_ms,
            r.memory_usage_bytes == base_size + final(self).records().len() * 1024,
    {
        let ghost all = files@;
        let mut rest = files;
        let mut entries: Vec<SignatureMetadata> = Vec::new();
        let mut total: u32 = 0;
        let mut failed: u32 = 0;
        let n = rest.len();
        let mut k: usize = 0;
        assert(all.take(0) =~= Seq::<RulesFileLoad>::empty());
        assert(record_views(entries@) =~= Seq::<MetaRecord>::empty());
        while k < n
            invariant
                k <= n,
                n == all.len(),
                rest@ == all.skip(k as int),
                record_views(entries@) == all_records(all.take(k as int)),
                total == accepted_rules(all.take(k as int)),
                failed == failed_files(all.take(k as int)),
                accepted_rules(all) <= u32::MAX,
                failed_files(all) <= accepted_rules(all),
            decreases n - k,
        {
            let mut f = rest.remove(0);
            assert(f == all[k as int]);
            assert(all.skip(k as int).drop_first() =~= all.skip(k + 1));
            assert(all.take(k + 1).drop_last() =~= all.take(k as int));
            assert(all.take(k + 1).last() == all[k as int]);
            proof {
                lemma_counts_mono(all, k + 1);
            }
            if f.accepted {
                total = total + f.metadata.len() as u32;
            } else {
                failed = failed + 1;
            }
            let ghost before = entries@;
            let ghost added = f.metadata@;
            entries.append(&mut f.metadata);
            assert(record_views(entries@) =~= record_views(before) + record_views(added));
            k = k + 1;
        }
        assert(all.take(n as int) =~= all);
        proof {
            lemma_stored_len(all_records(all));
        }
        self.install_signatures(entries, now);
        let memory = self.estimate_memory_usage(base_size);
        compilation_stats(total, failed, compilation_time_ms, memory)
    }

    /// The rules files that a reload compiles: the `.yar` files among the
    /// entries when the database path is a directory (`entries` being its
    /// listing), else the database path itself when it is a `.yar` file.
    pub fn rule_files(&self, is_dir: bool, entries: &[String]) -> (r: Vec<String>)
        ensures
            is_dir ==> text_views(r@) == yar_paths(entries@),
            !is_dir ==> text_views(r@) == (if extension(self.path()) == Some("yar"@) {
                seq![self.path()]
            } else {
                Seq::<Seq<char>>::empty()
            }),
    {
        proof {
            reveal_strlit("yar");
        }
        let mut r: Vec<String> = Vec::new();
        if !is_dir {
            let is_yar = match extension_of(self.database_path.as_str()) {
                Some(e) => str_eq(e.as_str(), "yar"),
                None => false,
            };
            if is_yar {
                r.push(self.database_path.clone());
                assert(text_views(r@) =~= seq![self.path()]);
            } else {
                assert(text_views(r@) =~= Seq::<Seq<char>>::empty());
            }
            return r;
        }
        let n = entries.len();
        assert(entries@.take(0) =~= Seq::<String>::empty());
        assert(text_views(r@) =~= Seq::<Seq<char>>::empty());
        for i in 0..n
            invariant
                n == entries@.len(),
                text_views(r@) == yar_paths(entries@.take(i as int)),
        {
            assert(entries@.take(i + 1).drop_last() =~= entries@.take(i as int));
            assert(entries@.take(i + 1).last() == entries@[i as int]);
            let is_yar = match extension_of(entries[i].as_str()) {
                Some(e) => str_eq(e.as_str(), "yar"),
                None => false,
            };
            if is_yar {
                let ghost before = text_views(r@);
                r.push(entries[i].clone());
                assert(text_views(r@) =~= before.push(entries@[i as int]@));
            }
        }
        assert(entries@.take(n as int) =~= entries@);
        r
    }

    /// Succeeds when signatures are loaded, as scanning requires.
    pub fn scan_ready(&self) -> (r: Result<(), AntivirusError>)
        ensures
            r is Ok <==> self.spec_loaded(),
            r matches Err(e) ==> e == AntivirusError::ScanEngine(ScanEngineError::SignatureDatabaseNotLoaded),
    {
        if self.loaded {
            Ok(())
        } else {
            Err(AntivirusError::ScanEngine(ScanEngineError::SignatureDatabaseNotLoaded))
        }
    }

    /// The matches reported for the matcher's hits: the hits of rules
    /// whose metadata is known, each with that metadata.
    pub fn collect_matches(&self, hits: Vec<RuleHit>) -> (r: Vec<SignatureMatch>)
        ensures
            match_views(r@) == collected(self.records(), hits@),
    {
        let ghost all = hits@;
        let mut rest = hits;
        let mut out: Vec<SignatureMatch> = Vec::new();
        let n = rest.len();
        let mut k: usize = 0;
        assert(all.take(0) =~= Seq::<RuleHit>::empty());
        assert(match_views(out@) =~= Seq::<(Seq<char>, MetaRecord, Seq<MatchInstance>)>::empty());
        while k < n
            invariant
                k <= n,
                n == all.len(),
                rest@ == all.skip(k as int),
                match_views(out@) == collected(self.records(), all.take(k as int)),
            decreases n - k,
        {
            let h = rest.remove(0);
            assert(h == all[k as int]);
            assert(all.skip(k as int).drop_first() =~= all.skip(k + 1));
            assert(all.take(k + 1).drop_last() =~= all.take(k as int));
            assert(all.take(k + 1).last() == all[k as int]);
            match self.get_signature_metadata(h.identifier.as_str()) {
                Some(metadata) => {
                    let ghost before = match_views(out@);
                    let m = SignatureMatch { rule_name: h.identifier, metadata, matches: h.strings };
                    out.push(m);
                    assert(match_views(out@) =~= before.push((m.rule_name@, m.metadata@, m.matches@)));
                },
                None => {},
            }
            k = k + 1;
        }
        assert(all.take(n as int) =~= all);
        out
    }

    /// The metadata of the rule named `rule_name`.
    pub fn get_signature_metadata(&self, rule_name: &str) -> (r: Option<SignatureMetadata>)
        ensures
            match r {
                Some(m) => meta_named(self.records(), rule_name@) == Some(m@),
                None => meta_named(self.records(), rule_name@) is None,
            },
    {
        let mut i: usize = self.signatures.len();
        let ghost all = record_views(self.signatures@);
        assert(all.take(all.len() as int) =~= all);
        while i > 0
            invariant
                i <= self.signatures@.len(),
                all == record_views(self.signatures@),
                meta_named(all, rule_name@) == meta_named(all.take(i as int), rule_name@),
            decreases i,
        {
            assert(all.take(i as int).drop_last() =~= all.take(i - 1));
            assert(all.take(i as int).last() == self.signatures@[i - 1]@);
            if str_eq(self.signatures[i - 1].name.as_str(), rule_name) {
                return Some(self.signatures[i - 1].clone());
            }
            i = i - 1;
        }
        None
    }
}

/// The threat types, in the order in which they are declared.
pub open spec fn all_threat_types() -> Seq<ThreatType> {
    seq![
        ThreatType::Virus,
        ThreatType::Trojan,
        ThreatType::Rootkit,
        ThreatType::Spyware,
        ThreatType::Adware,
        ThreatType::Ransomware,
        ThreatType::Suspicious,
        ThreatType::Unknown,
    ]
}

/// The severities, in the order in which they are declared.
pub open spec fn all_severities() -> Seq<ThreatSeverity> {
    seq![ThreatSeverity::Low, ThreatSeverity::Medium, ThreatSeverity::High, ThreatSeverity::Critical]
}

/// The types of `ts` that occur in `v`, with their counts, in order.
pub open spec fn type_distribution(v: Seq<MetaRecord>, ts: Seq<ThreatType>) -> Seq<(ThreatType, u32)>
    decreases ts.len(),
{
    if ts.len() == 0 {
        Seq::empty()
    } else if type_count(v, ts.last()) > 0 {
        type_distribution(v, ts.drop_last()).push((ts.last(), type_count(v, ts.last()) as u32))
    } else {
        type_distribution(v, ts.drop_last())
    }
}

/// The severities of `ss` that occur in `v`, with their counts, in order.
pub open spec fn severity_distribution(v: Seq<MetaRecord>, ss: Seq<ThreatSeverity>) -> Seq<(ThreatSeverity, u32)>
    decreases ss.len(),
{
    if ss.len() == 0 {
        Seq::empty()
    } else if severity_count(v, ss.last()) > 0 {
        severity_distribution(v, ss.drop_last()).push((ss.last(), severity_count(v, ss.last()) as u32))
    } else {
        severity_distribution(v, ss.drop_last())
    }
}

/// The lowercase hexadecimal SHA-256 digest of the bytes.
pub open spec fn digest_text(data: Seq<u8>) -> Seq<char> {
    hex_lower(sha256_of(data))
}

/// The threat that a signature match on the file at `path` with the digest
/// `hash` reports, with some identifier and time.
pub open spec fn signature_threat(t: ThreatInfo, m: SignatureMatch, path: Seq<char>, hash: Seq<char>) -> bool {
    exists|id: u128, now: Timestamp| threat_built(t, id, now, m.metadata.name@, m.metadata.threat_type,
        m.metadata.severity, path, hash, DetectionMethod::Signature)
}

/// The matches yield threats: each rule's name, trimmed, is not empty.
pub open spec fn names_valid(ms: Seq<SignatureMatch>) -> bool {
    forall|k: int| 0 <= k < ms.len() ==> trim(#[trigger] ms[k].metadata.name@).len() > 0
}

impl SignatureDatabase {
    fn count_type(&self, t: ThreatType) -> (r: u32)
        requires
            self.records().len() <= u32::MAX,
        ensures
            r == type_count(self.records(), t),
    {
        let mut c: u32 = 0;
        let n = self.signatures.len();
        let ghost all = self.records();
        for i in 0..n
            invariant
                n == self.signatures@.len(),
                n <= u32::MAX,
                all == self.records(),
                c == type_count(all.take(i as int), t),
                c <= i,
        {
            assert(all.take(i + 1).drop_last() =~= all.take(i as int));
            assert(all.take(i + 1).last() == self.signatures@[i as int]@);
            if self.signatures[i].threat_type == t {
                c = c + 1;
            }
        }
        assert(all.take(n as int) =~= all);
        c
    }

    fn count_severity(&self, s: ThreatSeverity) -> (r: u32)
        requires
            self.records().len() <= u32::MAX,
        ensures
            r == severity_count(self.records(), s),
    {
        let mut c: u32 = 0;
        let n = self.signatures.len();
        let ghost all = self.records();
        for i in 0..n
            invariant
                n == self.signatures@.len(),
                n <= u32::MAX,
                all == self.records(),
                c == severity_count(all.take(i as int), s),
                c <= i,
        {
            assert(all.take(i + 1).drop_last() =~= all.take(i as int));
            assert(all.take(i + 1).last() == self.signatures@[i as int]@);
            if self.signatures[i].severity == s {
                c = c + 1;
            }
        }
        assert(all.take(n as int) =~= all);
        c
    }

    /// The database's memory estimate: `base_size` for the database itself
    /// and a kibibyte per signature.
    pub fn estimate_memory_usage(&self, base_size: u64) -> (r: u64)
        requires
            base_size + self.records().len() * 1024 <= u64::MAX,
        ensures
            r == base_size + self.records().len() * 1024,
    {
        base_size + self.signatures.len() as u64 * 1024
    }

    /// The number of signatures, the version, the last load, how many
    /// signatures each threat type and severity has, and the memory
    /// estimate with `base_size` for the database itself.
    pub fn get_statistics(&self, base_size: u64) -> (r: DatabaseStatistics)
        requires
            self.records().len() <= u32::MAX,
            base_size + self.records().len() * 1024 <= u64::MAX,
        ensures
            r.total_signatures == self.records().len(),
            r.version@ == self.spec_version(),
            r.last_update == self.spec_last_update(),
            r.threat_type_distribution@ == type_distribution(self.records(), all_threat_types()),
            r.severity_distribution@ == severity_distribution(self.records(), all_severities()),
            r.memory_usage_bytes == base_size + self.records().len() * 1024,
    {
        let types: [ThreatType; 8] = [
            ThreatType::Virus,
            ThreatType::Trojan,
            ThreatType::Rootkit,
            ThreatType::Spyware,
            ThreatType::Adware,
            ThreatType::Ransomware,
            ThreatType::Suspicious,
            ThreatType::Unknown,
        ];
        assert(types@ =~= all_threat_types());
        let mut td: Vec<(ThreatType, u32)> = Vec::new();
        for k in 0..8
            invariant
                types@ == all_threat_types(),
                self.records().len() <= u32::MAX,
                td@ == type_distribution(self.records(), types@.take(k as int)),
        {
            assert(types@.take(k + 1).drop_last() =~= types@.take(k as int));
            let t = types[k];
            let c = self.count_type(t);
            if c > 0 {
                td.push((t, c));
            }
        }
        assert(types@.take(8) =~= types@);
        let sevs: [ThreatSeverity; 4] = [ThreatSeverity::Low, ThreatSeverity::Medium, ThreatSeverity::High, ThreatSeverity::Critical];
        assert(sevs@ =~= all_severities());
        let mut sd: Vec<(ThreatSeverity, u32)> = Vec::new();
        for k in 0..4
            invariant
                sevs@ == all_severities(),
                self.records().len() <= u32::MAX,
                sd@ == severity_distribution(self.records(), sevs@.take(k as int)),
        {
            assert(sevs@.take(k + 1).drop_last() =~= sevs@.take(k as int));
            let sv = sevs[k];
            let c = self.count_severity(sv);
            if c > 0 {
                sd.push((sv, c));
            }
        }
        assert(sevs@.take(4) =~= sevs@);
        DatabaseStatistics {
            total_signatures: self.signatures.len() as u32,
            version: self.version.clone(),
            last_update: self.last_update,
            threat_type_distribution: td,
            severity_distribution: sd,
            memory_usage_bytes: self.estimate_memory_usage(base_size),
        }
    }

    /// The SHA-256 digest of a file's bytes, in lowercase hexadecimal.
    pub fn calculate_file_hash(&self, data: &[u8]) -> (r: String)
        ensures
            r@ == digest_text(data@),
            valid_hash(r@),
    {
        let d = sha256_digest(data);
        let h = to_hex(&d);
        proof {
            lemma_hex_lower_digits(d@);
        }
        h
    }

    /// The threats that signature matches on a file report, one per match,
    /// in order: named after the rule, of its type and severity, detected by
    /// signature, with the digest of the file's bytes. A rule whose name is
    /// blank gives the error of `ThreatInfo::new`.
    pub fn matches_to_threats(&self, matches: Vec<SignatureMatch>, file_path: &str, data: &[u8]) -> (r: Result<Vec<ThreatInfo>, AntivirusError>)
        ensures
            r is Ok <==> names_valid(matches@),
            r matches Err(AntivirusError::Internal(m)) ==> m@ == "Threat name cannot be empty"@,
            r matches Ok(v) ==> v@.len() == matches@.len() && forall|k: int| 0 <= k < v@.len() ==> signature_threat(
                #[trigger] v@[k], matches@[k], file_path@, digest_text(data@)),
    {
        let file_hash = self.calculate_file_hash(data);
        let mut threats: Vec<ThreatInfo> = Vec::new();
        let n = matches.len();
        for i in 0..n
            invariant
                n == matches@.len(),
                file_hash@ == digest_text(data@),
                valid_hash(file_hash@),
                threats@.len() == i,
                forall|k: int| 0 <= k < i ==> trim(#[trigger] matches@[k].metadata.name@).len() > 0,
                forall|k: int| 0 <= k < i ==> signature_threat(#[trigger] threats@[k], matches@[k], file_path@, digest_text(data@)),
        {
            let m = &matches[i].metadata;
            match ThreatInfo::new(
                m.name.clone(),
                m.threat_type,
                m.severity,
                crate::text::owned(file_path),
                file_hash.clone(),
                DetectionMethod::Signature,
            ) {
                Ok(t) => {
                    assert(signature_threat(t, matches@[i as int], file_path@, digest_text(data@)));
                    threats.push(t);
                },
                Err(e) => {
                    return Err(e);
                },
            }
        }
        Ok(threats)
    }
}

} // verus!
