//! The sandbox's judgement of a run: the events that a monitored execution
//! produced are turned into a report, and scored for maliciousness.
use vstd::prelude::*;
use crate::error::AntivirusError;
use crate::pairs::{clone_pairs, get_value, insert_pair, keys_distinct, lookup};
use crate::paths::{join_path, joined};
use crate::text::{chars_of, owned, push_char, parse_bool, parse_u16, parse_u64, seq_contains, seq_ends_with, str_contains, str_ends_with, unsigned_text};
use crate::traits::{
    ExecutionReport, FileOperation, NetworkActivity, RegistryOperation, ResourceUsage, SandboxStatus,
    no_usage,
};
use crate::types::{SandboxId, Timestamp};

verus! {

/// Something that a process did in the sandbox, with its details.
#[derive(Debug, Clone)]
pub struct BehaviorEvent {
    pub timestamp: Timestamp,
    pub event_type: BehaviorEventType,
    pub process_id: u32,
    pub details: Vec<(String, String)>,
}

/// The kinds of events that the sandbox records.
#[derive(Debug, Clone, Copy, PartialEq, Eq, Structural)]
pub enum BehaviorEventType {
    ProcessCreated,
    ProcessTerminated,
    FileCreated,
    FileModified,
    FileDeleted,
    RegistryKeyCreated,
    RegistryKeyModified,
    RegistryKeyDeleted,
    NetworkConnection,
    DllLoaded,
    MutexCreated,
    ServiceInstalled,
    ScheduledTaskCreated,
}

/// The name of an event type, as its variant is written.
pub open spec fn event_type_name(t: BehaviorEventType) -> Seq<char> {
    match t {
        BehaviorEventType::ProcessCreated => "ProcessCreated"@,
        BehaviorEventType::ProcessTerminated => "ProcessTerminated"@,
        BehaviorEventType::FileCreated => "FileCreated"@,
        BehaviorEventType::FileModified => "FileModified"@,
        BehaviorEventType::FileDeleted => "FileDeleted"@,
        BehaviorEventType::RegistryKeyCreated => "RegistryKeyCreated"@,
        BehaviorEventType::RegistryKeyModified => "RegistryKeyModified"@,
        BehaviorEventType::RegistryKeyDeleted => "RegistryKeyDeleted"@,
        BehaviorEventType::NetworkConnection => "NetworkConnection"@,
        BehaviorEventType::DllLoaded => "DllLoaded"@,
        BehaviorEventType::MutexCreated => "MutexCreated"@,
        BehaviorEventType::ServiceInstalled => "ServiceInstalled"@,
        BehaviorEventType::ScheduledTaskCreated => "ScheduledTaskCreated"@,
    }
}

/// A character as it stands inside a quoted string: a backslash, a double
/// quote, a newline, a carriage return and a tab are escaped with a
/// backslash; any other character stands as it is.
pub open spec fn escaped_char(c: char) -> Seq<char> {
    if c == '\\' {
        seq!['\\', '\\']
    } else if c == '"' {
        seq!['\\', '"']
    } else if c == '\n' {
        seq!['\\', 'n']
    } else if c == '\r' {
        seq!['\\', 'r']
    } else if c == '\t' {
        seq!['\\', 't']
    } else {
        seq![c]
    }
}

/// The text with each character escaped.
pub open spec fn escaped(s: Seq<char>) -> Seq<char>
    decreases s.len(),
{
    if s.len() == 0 {
        Seq::empty()
    } else {
        escaped(s.drop_last()) + escaped_char(s.last())
    }
}

/// The text in double quotes, escaped.
pub open spec fn quoted(s: Seq<char>) -> Seq<char> {
    seq!['"'] + escaped(s) + seq!['"']
}

/// The detail entries as `"key": "value"`, in order, separated by `, `.
pub open spec fn details_text(d: Seq<(String, String)>) -> Seq<char>
    decreases d.len(),
{
    if d.len() == 0 {
        Seq::empty()
    } else {
        details_text(d.drop_last()) + (if d.len() > 1 { ", "@ } else { Seq::empty() }) + quoted(
            d.last().0@,
        ) + ": "@ + quoted(d.last().1@)
    }
}

/// The description of an observed behavior: the event's type, a colon and
/// its details in braces.
pub open spec fn behavior_text(e: BehaviorEvent) -> Seq<char> {
    event_type_name(e.event_type) + ": {"@ + details_text(e.details@) + "}"@
}

/// Appends the text, escaped, to `out`.
fn push_escaped(out: &mut String, text: &str)
    ensures
        final(out)@ == old(out)@ + escaped(text@),
{
    let v = chars_of(text);
    let n = v.len();
    let ghost start = out@;
    assert(v@.take(0) =~= Seq::<char>::empty());
    assert(start + escaped(Seq::<char>::empty()) =~= start);
    for i in 0..n
        invariant
            n == v@.len(),
            out@ == start + escaped(v@.take(i as int)),
    {
        let c = v[i];
        assert(v@.take(i + 1).drop_last() =~= v@.take(i as int));
        assert(v@.take(i + 1).last() == c);
        let ghost before = out@;
        if c == '\\' {
            push_char(out, '\\');
            push_char(out, '\\');
        } else if c == '"' {
            push_char(out, '\\');
            push_char(out, '"');
        } else if c == '\n' {
            push_char(out, '\\');
            push_char(out, 'n');
        } else if c == '\r' {
            push_char(out, '\\');
            push_char(out, 'r');
        } else if c == '\t' {
            push_char(out, '\\');
            push_char(out, 't');
        } else {
            push_char(out, c);
        }
        assert(out@ =~= before + escaped_char(c));
        assert(out@ =~= start + escaped(v@.take(i + 1)));
    }
    assert(v@.take(n as int) =~= v@);
}

/// Appends the text in double quotes, escaped, to `out`.
fn push_quoted(out: &mut String, text: &str)
    ensures
        final(out)@ == old(out)@ + quoted(text@),
{
    let ghost start = out@;
    push_char(out, '"');
    push_escaped(out, text);
    push_char(out, '"');
    assert(out@ =~= start + quoted(text@));
}

/// The description of an observed behavior (see `behavior_text`).
pub fn describe_behavior(event: &BehaviorEvent) -> (r: String)
    ensures
        r@ == behavior_text(*event),
{
    let mut out = event.event_type.name();
    out.append(": {");
    let d = &event.details;
    let n = d.len();
    let ghost start = out@;
    assert(d@.take(0) =~= Seq::<(String, String)>::empty());
    assert(start + details_text(Seq::<(String, String)>::empty()) =~= start);
    for i in 0..n
        invariant
            n == d@.len(),
            d == &event.details,
            out@ == start + details_text(d@.take(i as int)),
    {
        assert(d@.take(i + 1).drop_last() =~= d@.take(i as int));
        assert(d@.take(i + 1).last() == d@[i as int]);
        let ghost before = out@;
        if i > 0 {
            out.append(", ");
        }
        let (k, v) = &d[i];
        push_quoted(&mut out, k.as_str());
        out.append(": ");
        push_quoted(&mut out, v.as_str());
        assert(out@ =~= start + details_text(d@.take(i + 1)));
    }
    assert(d@.take(n as int) =~= d@);
    out.append("}");
    out
}

/// The descriptions of the observed behaviors, one per event, in order.
pub fn describe_behaviors(events: &Vec<BehaviorEvent>) -> (r: Vec<String>)
    ensures
        r@.len() == events@.len(),
        forall|i: int| 0 <= i < events@.len() ==> (#[trigger] r@[i])@ == behavior_text(events@[i]),
{
    let mut out: Vec<String> = Vec::new();
    let n = events.len();
    for i in 0..n
        invariant
            n == events@.len(),
            out@.len() == i,
            forall|j: int| 0 <= j < i ==> (#[trigger] out@[j])@ == behavior_text(events@[j]),
    {
        out.push(describe_behavior(&events[i]));
    }
    out
}

impl BehaviorEventType {
    /// The name of the event type.
    pub fn name(&self) -> (r: String)
        ensures
            r@ == event_type_name(*self),
    {
        match self {
            BehaviorEventType::ProcessCreated => owned("ProcessCreated"),
            BehaviorEventType::ProcessTerminated => owned("ProcessTerminated"),
            BehaviorEventType::FileCreated => owned("FileCreated"),
            BehaviorEventType::FileModified => owned("FileModified"),
            BehaviorEventType::FileDeleted => owned("FileDeleted"),
            BehaviorEventType::RegistryKeyCreated => owned("RegistryKeyCreated"),
            BehaviorEventType::RegistryKeyModified => owned("RegistryKeyModified"),
            BehaviorEventType::RegistryKeyDeleted => owned("RegistryKeyDeleted"),
            BehaviorEventType::NetworkConnection => owned("NetworkConnection"),
            BehaviorEventType::DllLoaded => owned("DllLoaded"),
            BehaviorEventType::MutexCreated => owned("MutexCreated"),
            BehaviorEventType::ServiceInstalled => owned("ServiceInstalled"),
            BehaviorEventType::ScheduledTaskCreated => owned("ScheduledTaskCreated"),
        }
    }
}

/// How a sandbox run is confined. `max_cpu_percent` holds the IEEE-754
/// single-precision bits of the percentage.
#[derive(Debug, Clone, Copy, PartialEq, Eq, Structural)]
pub struct SandboxConfig {
    pub timeout_seconds: u32,
    pub max_memory_mb: u64,
    pub max_cpu_percent: u32,
    pub enable_network: bool,
    pub redirect_filesystem: bool,
    pub monitor_registry: bool,
    pub capture_screenshots: bool,
    pub analysis_depth: AnalysisDepth,
}

/// How deeply a run is analysed.
#[derive(Debug, Clone, Copy, PartialEq, Eq, Structural)]
pub enum AnalysisDepth {
    Basic,
    Standard,
    Deep,
    Forensic,
}

/// The bits of the single-precision number 50.0.
pub const FIFTY_F32: u32 = 0x4248_0000;

/// The default confinement: five minutes, 512 MiB, half a CPU, no network.
pub open spec fn default_sandbox_config() -> SandboxConfig {
    SandboxConfig {
        timeout_seconds: 300,
        max_memory_mb: 512,
        max_cpu_percent: FIFTY_F32,
        enable_network: false,
        redirect_filesystem: true,
        monitor_registry: true,
        capture_screenshots: false,
        analysis_depth: AnalysisDepth::Standard,
    }
}

impl Default for SandboxConfig {
    fn default() -> (r: Self)
        ensures
            r == default_sandbox_config(),
    {
        SandboxConfig {
            timeout_seconds: 300,
            max_memory_mb: 512,
            max_cpu_percent: FIFTY_F32,
            enable_network: false,
            redirect_filesystem: true,
            monitor_registry: true,
            capture_screenshots: false,
            analysis_depth: AnalysisDepth::Standard,
        }
    }
}

/// The sandbox engine's settings for new sandboxes.
pub struct SandboxEngine {
    default_config: SandboxConfig,
    active_sandboxes: Vec<SandboxInstance>,
}

/// The points that one event adds to the maliciousness score.
pub open spec fn event_score(e: BehaviorEvent) -> int {
    match e.event_type {
        BehaviorEventType::RegistryKeyModified => match lookup(e.details@, "key_path"@) {
            Some(k) => (if seq_contains(k, "Run"@) || seq_contains(k, "RunOnce"@) { 20int } else { 0int })
                + (if seq_contains(k, "Windows\\CurrentVersion\\Policies"@) { 15int } else { 0int }),
            None => 0,
        },
        BehaviorEventType::FileCreated => match lookup(e.details@, "file_path"@) {
            Some(f) => (if seq_contains(f, "System32"@) || seq_contains(f, "SysWOW64"@) { 25int } else { 0int })
                + (if seq_ends_with(f, ".exe"@) && seq_contains(f, "Temp"@) { 10int } else { 0int }),
            None => 0,
        },
        BehaviorEventType::NetworkConnection => 5 + match lookup(e.details@, "destination"@) {
            Some(d) => if seq_contains(d, "tor"@) || seq_contains(d, "onion"@) { 30int } else { 0int },
            None => 0,
        },
        BehaviorEventType::ProcessCreated => 2,
        BehaviorEventType::ServiceInstalled => 20,
        BehaviorEventType::ScheduledTaskCreated => 15,
        _ => 0,
    }
}

/// The maliciousness score of a run: the sum of its events' points.
pub open spec fn malicious_score(events: Seq<BehaviorEvent>) -> int
    decreases events.len(),
{
    if events.len() == 0 {
        0
    } else {
        malicious_score(events.drop_last()) + event_score(events.last())
    }
}

proof fn lemma_score_nonneg(events: Seq<BehaviorEvent>)
    ensures
        malicious_score(events) >= 0,
    decreases events.len(),
{
    if events.len() > 0 {
        lemma_score_nonneg(events.drop_last());
    }
}

/// The score of two runs of events one after the other is the sum of
/// their scores.
proof fn lemma_score_concat(a: Seq<BehaviorEvent>, b: Seq<BehaviorEvent>)
    ensures
        malicious_score(a + b) == malicious_score(a) + malicious_score(b),
    decreases b.len(),
{
    if b.len() == 0 {
        assert(a + b =~= a);
    } else {
        lemma_score_concat(a, b.drop_last());
        assert((a + b).drop_last() =~= a + b.drop_last());
        assert((a + b).last() == b.last());
    }
}

/// Taking one event out lowers the score by that event's points.
proof fn lemma_score_remove(s: Seq<BehaviorEvent>, j: int)
    requires
        0 <= j < s.len(),
    ensures
        malicious_score(s) == malicious_score(s.remove(j)) + event_score(s[j]),
{
    let one = seq![s[j]];
    let front = s.take(j);
    let back = s.skip(j + 1);
    assert(s =~= front + (one + back));
    assert(s.remove(j) =~= front + back);
    assert(one.drop_last() =~= Seq::<BehaviorEvent>::empty());
    assert(one.last() == s[j]);
    assert(malicious_score(Seq::<BehaviorEvent>::empty()) == 0);
    assert(malicious_score(one) == event_score(s[j]));
    lemma_score_concat(front, one + back);
    lemma_score_concat(one, back);
    lemma_score_concat(front, back);
}

/// More events can only raise the score: if the events `a` score at least
/// 30, the events of `a` and then those of `b` score at least 30 as well.
pub proof fn lemma_appending_keeps_verdict(a: Seq<BehaviorEvent>, b: Seq<BehaviorEvent>)
    ensures
        malicious_score(a) >= 30 ==> malicious_score(a + b) >= 30,
        malicious_score(a) <= malicious_score(a + b),
{
    lemma_score_concat(a, b);
    lemma_score_nonneg(b);
}

/// The score, and so the verdict, does not depend on the order of the
/// events: two runs holding the same events score the same.
pub proof fn lemma_score_order_free(a: Seq<BehaviorEvent>, b: Seq<BehaviorEvent>)
    requires
        a.to_multiset() == b.to_multiset(),
    ensures
        malicious_score(a) == malicious_score(b),
    decreases a.len(),
{
    broadcast use vstd::seq_lib::group_to_multiset_ensures;
    broadcast use vstd::multiset::group_multiset_axioms;

    if a.len() == 0 {
        assert(b.to_multiset().len() == 0);
        assert(b =~= Seq::<BehaviorEvent>::empty());
    } else {
        let x = a.last();
        let a2 = a.drop_last();
        assert(a2.push(x) =~= a);
        assert(a.to_multiset() =~= a2.to_multiset().insert(x));
        assert(b.to_multiset().count(x) > 0);
        assert(b.contains(x));
        let j = choose|j: int| 0 <= j < b.len() && b[j] == x;
        let b2 = b.remove(j);
        assert(b2.to_multiset() == b.to_multiset().remove(x));
        assert(a2.to_multiset().insert(x).remove(x) =~= a2.to_multiset());
        lemma_score_order_free(a2, b2);
        lemma_score_remove(b, j);
    }
}

/// A network connection to a destination that names Tor or an onion
/// service scores 35 points, so any run that makes one is malicious,
/// whatever else it does.
pub proof fn lemma_hidden_service_connection_is_malicious(events: Seq<BehaviorEvent>, i: int, d: Seq<char>)
    requires
        0 <= i < events.len(),
        events[i].event_type == BehaviorEventType::NetworkConnection,
        lookup(events[i].details@, "destination"@) == Some(d),
        seq_contains(d, "tor"@) || seq_contains(d, "onion"@),
    ensures
        event_score(events[i]) == 35,
        malicious_score(events) >= 30,
{
    lemma_score_remove(events, i);
    lemma_score_nonneg(events.remove(i));
}

/// An event's points depend only on its type and its details.
pub proof fn lemma_score_reads_type_and_details(e1: BehaviorEvent, e2: BehaviorEvent)
    requires
        e1.event_type == e2.event_type,
        e1.details@ == e2.details@,
    ensures
        event_score(e1) == event_score(e2),
{
}

fn score_event(e: &BehaviorEvent) -> (r: u64)
    ensures
        r == event_score(*e),
{
    match e.event_type {
        BehaviorEventType::RegistryKeyModified => match get_value(e.details.as_slice(), "key_path") {
            Some(k) => {
                let a: u64 = if str_contains(k.as_str(), "Run") || str_contains(k.as_str(), "RunOnce") { 20 } else { 0 };
                let b: u64 = if str_contains(k.as_str(), "Windows\\CurrentVersion\\Policies") { 15 } else { 0 };
                a + b
            },
            None => 0,
        },
        BehaviorEventType::FileCreated => match get_value(e.details.as_slice(), "file_path") {
            Some(f) => {
                let a: u64 = if str_contains(f.as_str(), "System32") || str_contains(f.as_str(), "SysWOW64") { 25 } else { 0 };
                let b: u64 = if str_ends_with(f.as_str(), ".exe") && str_contains(f.as_str(), "Temp") { 10 } else { 0 };
                a + b
            },
            None => 0,
        },
        BehaviorEventType::NetworkConnection => {
            let b: u64 = match get_value(e.details.as_slice(), "destination") {
                Some(d) => if str_contains(d.as_str(), "tor") || str_contains(d.as_str(), "onion") { 30 } else { 0 },
                None => 0,
            };
            5 + b
        },
        BehaviorEventType::ProcessCreated => 2,
        BehaviorEventType::ServiceInstalled => 20,
        BehaviorEventType::ScheduledTaskCreated => 15,
        _ => 0,
    }
}

/// The detail under `key`, or the empty string.
pub open spec fn detail_or_empty(details: Seq<(String, String)>, key: Seq<char>) -> Seq<char> {
    match lookup(details, key) {
        Some(v) => v,
        None => Seq::empty(),
    }
}

/// The detail under `key` read as a number of type bounded by `max`, or 0
/// when it is missing or does not read as one.
pub open spec fn detail_number(details: Seq<(String, String)>, key: Seq<char>, max: int) -> int {
    match lookup(details, key) {
        Some(v) => match unsigned_text(v) {
            Some(n) => if n <= max { n } else { 0 },
            None => 0,
        },
        None => 0,
    }
}

/// The detail under `key` read as `true` or `false`, or true otherwise.
pub open spec fn detail_success(details: Seq<(String, String)>, key: Seq<char>) -> bool {
    match lookup(details, key) {
        Some(v) => v != "false"@,
        None => true,
    }
}

/// The network connections of the run, as destination, port, protocol,
/// bytes sent and bytes received.
pub open spec fn network_of(events: Seq<BehaviorEvent>) -> Seq<(Seq<char>, int, Seq<char>, int, int)>
    decreases events.len(),
{
    if events.len() == 0 {
        Seq::empty()
    } else if events.last().event_type == BehaviorEventType::NetworkConnection {
        let d = events.last().details@;
        network_of(events.drop_last()).push((
            detail_or_empty(d, "destination"@),
            detail_number(d, "port"@, u16::MAX as int),
            detail_or_empty(d, "protocol"@),
            detail_number(d, "bytes_sent"@, u64::MAX as int),
            detail_number(d, "bytes_received"@, u64::MAX as int),
        ))
    } else {
        network_of(events.drop_last())
    }
}

/// The event type is a file operation.
pub open spec fn is_file_event(t: BehaviorEventType) -> bool {
    t == BehaviorEventType::FileCreated || t == BehaviorEventType::FileModified || t
        == BehaviorEventType::FileDeleted
}

/// The event type is a registry operation.
pub open spec fn is_registry_event(t: BehaviorEventType) -> bool {
    t == BehaviorEventType::RegistryKeyCreated || t == BehaviorEventType::RegistryKeyModified || t
        == BehaviorEventType::RegistryKeyDeleted
}

/// The file operations of the run, as operation, path and success.
pub open spec fn files_of(events: Seq<BehaviorEvent>) -> Seq<(Seq<char>, Seq<char>, bool)>
    decreases events.len(),
{
    if events.len() == 0 {
        Seq::empty()
    } else if is_file_event(events.last().event_type) {
        let d = events.last().details@;
        files_of(events.drop_last()).push((
            event_type_name(events.last().event_type),
            detail_or_empty(d, "file_path"@),
            detail_success(d, "success"@),
        ))
    } else {
        files_of(events.drop_last())
    }
}

/// The registry operations of the run, as operation, key, value name and
/// success.
pub open spec fn registry_of(events: Seq<BehaviorEvent>) -> Seq<(Seq<char>, Seq<char>, Option<Seq<char>>, bool)>
    decreases events.len(),
{
    if events.len() == 0 {
        Seq::empty()
    } else if is_registry_event(events.last().event_type) {
        let d = events.last().details@;
        registry_of(events.drop_last()).push((
            event_type_name(events.last().event_type),
            detail_or_empty(d, "key_path"@),
            lookup(d, "value_name"@),
            detail_success(d, "success"@),
        ))
    } else {
        registry_of(events.drop_last())
    }
}

/// The network activity as tuples.
pub open spec fn network_views(v: Seq<NetworkActivity>) -> Seq<(Seq<char>, int, Seq<char>, int, int)> {
    Seq::new(v.len(), |i: int| (v[i].destination@, v[i].port as int, v[i].protocol@, v[i].bytes_sent as int, v[i].bytes_received as int))
}

/// The file operations as tuples.
pub open spec fn file_views(v: Seq<FileOperation>) -> Seq<(Seq<char>, Seq<char>, bool)> {
    Seq::new(v.len(), |i: int| (v[i].operation@, v[i].file_path@, v[i].success))
}

/// The registry operations as tuples.
pub open spec fn registry_views(v: Seq<RegistryOperation>) -> Seq<(Seq<char>, Seq<char>, Option<Seq<char>>, bool)> {
    Seq::new(v.len(), |i: int| (v[i].operation@, v[i].key_path@, match v[i].value_name {
        Some(n) => Some(n@),
        None => None,
    }, v[i].success))
}

fn detail_text(details: &Vec<(String, String)>, key: &str) -> (r: String)
    ensures
        r@ == detail_or_empty(details@, key@),
{
    match get_value(details.as_slice(), key) {
        Some(v) => v.clone(),
        None => String::new(),
    }
}

fn detail_u64(details: &Vec<(String, String)>, key: &str) -> (r: u64)
    ensures
        r == detail_number(details@, key@, u64::MAX as int),
{
    match get_value(details.as_slice(), key) {
        Some(v) => match parse_u64(v.as_str()) {
            Some(n) => n,
            None => 0,
        },
        None => 0,
    }
}

fn detail_u16(details: &Vec<(String, String)>, key: &str) -> (r: u16)
    ensures
        r == detail_number(details@, key@, u16::MAX as int),
{
    match get_value(details.as_slice(), key) {
        Some(v) => match parse_u16(v.as_str()) {
            Some(n) => n,
            None => 0,
        },
        None => 0,
    }
}

fn detail_bool(details: &Vec<(String, String)>, key: &str) -> (r: bool)
    ensures
        r == detail_success(details@, key@),
{
    match get_value(details.as_slice(), key) {
        Some(v) => {
            proof {
                reveal_strlit("true");
                reveal_strlit("false");
                assert("true"@.len() != "false"@.len());
                assert("true"@ != "false"@);
            }
            match parse_bool(v.as_str()) {
                Some(b) => b,
                None => true,
            }
        },
        None => true,
    }
}

impl SandboxEngine {
    /// An engine whose sandboxes take the default confinement.
    pub fn new() -> (r: Self)
        ensures
            r.default_config() == default_sandbox_config(),
            r.wf(),
            r.sandboxes().len() == 0,
    {
        SandboxEngine { default_config: SandboxConfig::default(), active_sandboxes: Vec::new() }
    }

    /// An engine whose sandboxes take the given confinement.
    pub fn with_config(config: SandboxConfig) -> (r: Self)
        ensures
            r.default_config() == config,
            r.wf(),
            r.sandboxes().len() == 0,
    {
        SandboxEngine { default_config: config, active_sandboxes: Vec::new() }
    }

    /// The confinement of new sandboxes.
    #[verifier::when_used_as_spec(spec_default_config)]
    pub fn default_config(&self) -> (r: SandboxConfig)
        ensures
            r == self.spec_default_config(),
    {
        self.default_config
    }

    /// The confinement of new sandboxes.
    pub closed spec fn spec_default_config(&self) -> SandboxConfig {
        self.default_config
    }

    /// Whether the events of a run add up to a maliciousness score of at
    /// least 30.
    pub fn analyze_malicious_behavior(&self, events: &[BehaviorEvent]) -> (r: bool)
        ensures
            r == (malicious_score(events@) >= 30),
    {
        let mut score: u64 = 0;
        let n = events.len();
        for i in 0..n
            invariant
                n == events@.len(),
                score == (if malicious_score(events@.take(i as int)) < 30 { malicious_score(events@.take(i as int)) } else { 30 }),
        {
            assert(events@.take(i + 1).drop_last() =~= events@.take(i as int));
            proof {
                lemma_score_nonneg(events@.take(i as int));
            }
            let add = score_event(&events[i]);
            assert(add <= 35);
            score = if score + add >= 30 { 30 } else { score + add };
        }
        assert(events@.take(n as int) =~= events@);
        score >= 30
    }

    /// The report of a run: one description per event, its connections,
    /// file and registry operations taken from the events, the exit code
    /// (-1 when the process gave none), and the verdict on the events.
    pub fn analyze_execution_results(
        &self,
        sandbox_id: SandboxId,
        exit_code: Option<i32>,
        behavior_events: &Vec<BehaviorEvent>,
        execution_time_ms: u64,
    ) -> (r: ExecutionReport)
        ensures
            r.sandbox_id == sandbox_id,
            r.execution_time_ms == execution_time_ms,
            r.exit_code == (match exit_code {
                Some(c) => c as int,
                None => -1int,
            }),
            r.behaviors_observed@.len() == behavior_events@.len(),
            forall|i: int| 0 <= i < behavior_events@.len() ==> (#[trigger] r.behaviors_observed@[i])@ == behavior_text(behavior_events@[i]),
            network_views(r.network_activity@) == network_of(behavior_events@),
            file_views(r.file_operations@) == files_of(behavior_events@),
            registry_views(r.registry_operations@) == registry_of(behavior_events@),
            r.is_malicious == (malicious_score(behavior_events@) >= 30),
    {
        let mut network_activity: Vec<NetworkActivity> = Vec::new();
        let mut file_operations: Vec<FileOperation> = Vec::new();
        let mut registry_operations: Vec<RegistryOperation> = Vec::new();
        let n = behavior_events.len();
        for i in 0..n
            invariant
                n == behavior_events@.len(),
                network_views(network_activity@) == network_of(behavior_events@.take(i as int)),
                file_views(file_operations@) == files_of(behavior_events@.take(i as int)),
                registry_views(registry_operations@) == registry_of(behavior_events@.take(i as int)),
        {
            let event = &behavior_events[i];
            assert(behavior_events@.take(i + 1).drop_last() =~= behavior_events@.take(i as int));
            assert(behavior_events@.take(i + 1).last() == *event);
            let d = &event.details;
            match event.event_type {
                BehaviorEventType::NetworkConnection => {
                    let ghost before = network_views(network_activity@);
                    let a = NetworkActivity {
                        destination: detail_text(d, "destination"),
                        port: detail_u16(d, "port"),
                        protocol: detail_text(d, "protocol"),
                        bytes_sent: detail_u64(d, "bytes_sent"),
                        bytes_received: detail_u64(d, "bytes_received"),
                    };
                    network_activity.push(a);
                    assert(network_views(network_activity@) =~= before.push((a.destination@, a.port as int, a.protocol@, a.bytes_sent as int, a.bytes_received as int)));
                },
                BehaviorEventType::FileCreated | BehaviorEventType::FileModified | BehaviorEventType::FileDeleted => {
                    let ghost before = file_views(file_operations@);
                    let f = FileOperation {
                        operation: event.event_type.name(),
                        file_path: detail_text(d, "file_path"),
                        success: detail_bool(d, "success"),
                    };
                    file_operations.push(f);
                    assert(file_views(file_operations@) =~= before.push((f.operation@, f.file_path@, f.success)));
                },
                BehaviorEventType::RegistryKeyCreated | BehaviorEventType::RegistryKeyModified | BehaviorEventType::RegistryKeyDeleted => {
                    let ghost before = registry_views(registry_operations@);
                    let value_name = match get_value(d.as_slice(), "value_name") {
                        Some(v) => Some(v.clone()),
                        None => None,
                    };
                    let reg = RegistryOperation {
                        operation: event.event_type.name(),
                        key_path: detail_text(d, "key_path"),
                        value_name,
                        success: detail_bool(d, "success"),
                    };
                    registry_operations.push(reg);
                    assert(registry_views(registry_operations@) =~= before.push((reg.operation@, reg.key_path@, match reg.value_name {
                        Some(v) => Some(v@),
                        None => None,
                    }, reg.success)));
                },
                _ => {},
            }
        }
        assert(behavior_events@.take(n as int) =~= behavior_events@);
        let behaviors_observed = describe_behaviors(behavior_events);
        let is_malicious = self.analyze_malicious_behavior(behavior_events.as_slice());
        ExecutionReport {
            sandbox_id,
            execution_time_ms,
            exit_code: match exit_code {
                Some(c) => c,
                None => -1,
            },
            behaviors_observed,
            network_activity,
            file_operations,
            registry_operations,
            is_malicious,
        }
    }
}

/// The directories that a sandbox redirects, each with the subdirectory of
/// the sandbox that stands in for it.
pub open spec fn redirect_targets() -> Seq<(Seq<char>, Seq<char>)> {
    seq![
        ("C:\\Windows\\Temp"@, "temp"@),
        ("C:\\Users\\Public"@, "files/public"@),
        ("C:\\ProgramData"@, "files/programdata"@),
    ]
}

/// One sandbox: its confinement, directory, redirections, the events
/// recorded so far and what it used.
#[derive(Debug)]
pub struct SandboxInstance {
    pub id: SandboxId,
    pub config: SandboxConfig,
    pub start_time: Timestamp,
    pub sandbox_dir: String,
    pub redirected_paths: Vec<(String, String)>,
    pub behavior_events: Vec<BehaviorEvent>,
    pub resource_usage: ResourceUsage,
    pub is_running: bool,
}

/// A fresh sandbox: nothing redirected or recorded, nothing used, not
/// running.
pub open spec fn is_fresh(s: SandboxInstance, config: SandboxConfig, id: SandboxId, now: Timestamp, dir: Seq<char>) -> bool {
    &&& s.id == id
    &&& s.config == config
    &&& s.start_time == now
    &&& s.sandbox_dir@ == dir
    &&& s.redirected_paths@.len() == 0
    &&& s.behavior_events@.len() == 0
    &&& s.resource_usage == no_usage()
    &&& !s.is_running
}

/// The redirections of a sandbox in `dir` once set up: each redirected
/// directory maps to its subdirectory of `dir`, and nothing else is
/// redirected.
pub open spec fn redirections_set_up(r: Seq<(String, String)>, dir: Seq<char>) -> bool {
    &&& r.len() == 3
    &&& keys_distinct(r)
    &&& forall|i: int| 0 <= i < 3 ==> lookup(r, #[trigger] redirect_targets()[i].0) == Some(
        joined(dir, redirect_targets()[i].1),
    )
}

/// A new sandbox as the engine sets it up: fresh, with its redirections
/// in place when the confinement asks for them.
pub open spec fn is_new_sandbox(s: SandboxInstance, config: SandboxConfig, id: SandboxId, now: Timestamp, dir: Seq<char>) -> bool {
    &&& s.id == id
    &&& s.config == config
    &&& s.start_time == now
    &&& s.sandbox_dir@ == dir
    &&& s.behavior_events@.len() == 0
    &&& s.resource_usage == no_usage()
    &&& !s.is_running
    &&& if config.redirect_filesystem {
        redirections_set_up(s.redirected_paths@, dir)
    } else {
        s.redirected_paths@.len() == 0
    }
}

/// The two events record the same thing.
pub open spec fn same_event(a: BehaviorEvent, b: BehaviorEvent) -> bool {
    &&& a.timestamp == b.timestamp
    &&& a.event_type == b.event_type
    &&& a.process_id == b.process_id
    &&& a.details@ == b.details@
}

/// The two lists record the same events in the same order.
pub open spec fn same_events(a: Seq<BehaviorEvent>, b: Seq<BehaviorEvent>) -> bool {
    a.len() == b.len() && forall|i: int| 0 <= i < a.len() ==> same_event(#[trigger] a[i], b[i])
}

/// A copy of an event.
pub fn copy_event(e: &BehaviorEvent) -> (r: BehaviorEvent)
    ensures
        same_event(r, *e),
{
    let details = clone_pairs(e.details.as_slice());
    BehaviorEvent { timestamp: e.timestamp, event_type: e.event_type, process_id: e.process_id, details }
}

/// A copy of a list of events.
pub fn copy_events(v: &Vec<BehaviorEvent>) -> (r: Vec<BehaviorEvent>)
    ensures
        same_events(r@, v@),
{
    let mut r: Vec<BehaviorEvent> = Vec::new();
    let n = v.len();
    for i in 0..n
        invariant
            n == v@.len(),
            r@.len() == i,
            forall|j: int| 0 <= j < i ==> same_event(#[trigger] r@[j], v@[j]),
    {
        r.push(copy_event(&v[i]));
    }
    r
}

impl SandboxInstance {
    /// A fresh sandbox `id` with the given confinement, started at `now`,
    /// living in `sandbox_dir`.
    pub fn new(config: SandboxConfig, id: SandboxId, now: Timestamp, sandbox_dir: String) -> (r: Self)
        ensures
            is_fresh(r, config, id, now, sandbox_dir@),
    {
        SandboxInstance {
            id,
            config,
            start_time: now,
            sandbox_dir,
            redirected_paths: Vec::new(),
            behavior_events: Vec::new(),
            resource_usage: ResourceUsage::default(),
            is_running: false,
        }
    }

    /// Maps each redirected directory to its subdirectory of the sandbox,
    /// when the confinement redirects the file system; the directories
    /// themselves are created by the caller.
    pub fn setup_filesystem_redirection(&mut self)
        ensures
            final(self).config == old(self).config,
            final(self).id == old(self).id,
            final(self).start_time == old(self).start_time,
            final(self).sandbox_dir == old(self).sandbox_dir,
            final(self).behavior_events == old(self).behavior_events,
            final(self).resource_usage == old(self).resource_usage,
            final(self).is_running == old(self).is_running,
            !old(self).config.redirect_filesystem ==> final(self).redirected_paths == old(self).redirected_paths,
            old(self).config.redirect_filesystem ==> forall|i: int| 0 <= i < 3 ==> lookup(
                final(self).redirected_paths@,
                #[trigger] redirect_targets()[i].0,
            ) == Some(joined(old(self).sandbox_dir@, redirect_targets()[i].1)),
            old(self).config.redirect_filesystem ==> forall|k: Seq<char>|
                k != redirect_targets()[0].0 && k != redirect_targets()[1].0 && k != redirect_targets()[2].0
                    ==> #[trigger] lookup(final(self).redirected_paths@, k) == lookup(old(self).redirected_paths@, k),
            old(self).config.redirect_filesystem && old(self).redirected_paths@.len() == 0 ==> redirections_set_up(
                final(self).redirected_paths@,
                old(self).sandbox_dir@,
            ),
    {
        if !self.config.redirect_filesystem {
            return;
        }
        proof {
            reveal_strlit("C:\\Windows\\Temp");
            reveal_strlit("C:\\Users\\Public");
            reveal_strlit("C:\\ProgramData");
            reveal_strlit("temp");
            reveal_strlit("files/public");
            reveal_strlit("files/programdata");
        }
        let ghost before = self.redirected_paths@;
        let ghost dir = self.sandbox_dir@;
        let t0 = join_path(self.sandbox_dir.as_str(), "temp");
        insert_pair(&mut self.redirected_paths, owned("C:\\Windows\\Temp"), t0);
        let ghost after0 = self.redirected_paths@;
        let t1 = join_path(self.sandbox_dir.as_str(), "files/public");
        insert_pair(&mut self.redirected_paths, owned("C:\\Users\\Public"), t1);
        let ghost after1 = self.redirected_paths@;
        let t2 = join_path(self.sandbox_dir.as_str(), "files/programdata");
        insert_pair(&mut self.redirected_paths, owned("C:\\ProgramData"), t2);
        proof {
            let k = redirect_targets();
            assert(k[0].0[3] != k[1].0[3]);
            assert(k[0].0 != k[1].0);
            assert(k[0].0.len() != k[2].0.len());
            assert(k[0].0 != k[2].0);
            assert(k[1].0.len() != k[2].0.len());
            assert(k[1].0 != k[2].0);
            assert forall|i: int| 0 <= i < 3 implies lookup(self.redirected_paths@, #[trigger] k[i].0) == Some(
                joined(dir, k[i].1),
            ) by {
                if i == 0 {
                } else if i == 1 {
                } else {
                }
            }
            if before.len() == 0 {
                assert(keys_distinct(before));
                assert(after0.len() == 1);
                assert(after1.len() == 2);
            }
        }
    }

    /// Records an event.
    pub fn add_behavior_event(&mut self, event: BehaviorEvent)
        ensures
            final(self).behavior_events@ == old(self).behavior_events@.push(event),
            final(self).id == old(self).id,
            final(self).config == old(self).config,
            final(self).start_time == old(self).start_time,
            final(self).sandbox_dir == old(self).sandbox_dir,
            final(self).redirected_paths == old(self).redirected_paths,
            final(self).resource_usage == old(self).resource_usage,
            final(self).is_running == old(self).is_running,
    {
        self.behavior_events.push(event);
    }

    /// Replaces the usage figures.
    pub fn update_resource_usage(&mut self, usage: ResourceUsage)
        ensures
            *final(self) == (SandboxInstance { resource_usage: usage, ..*old(self) }),
    {
        self.resource_usage = usage;
    }

    /// The events recorded so far.
    pub fn get_behavior_events(&self) -> (r: Vec<BehaviorEvent>)
        ensures
            same_events(r@, self.behavior_events@),
    {
        copy_events(&self.behavior_events)
    }

    /// The usage figures.
    pub fn get_resource_usage(&self) -> (r: ResourceUsage)
        ensures
            r == self.resource_usage,
    {
        self.resource_usage
    }

    /// Stops the sandbox; its directory is removed by the caller.
    pub fn cleanup(&mut self)
        ensures
            *final(self) == (SandboxInstance { is_running: false, ..*old(self) }),
    {
        self.is_running = false;
    }
}

/// The sandbox registered under `id`, if any.
pub open spec fn sandbox_of(v: Seq<SandboxInstance>, id: SandboxId) -> Option<SandboxInstance>
    decreases v.len(),
{
    if v.len() == 0 {
        None
    } else if v[0].id == id {
        Some(v[0])
    } else {
        sandbox_of(v.drop_first(), id)
    }
}

/// No sandbox identifier occurs twice.
pub open spec fn sandbox_ids_distinct(v: Seq<SandboxInstance>) -> bool {
    forall|i: int, j: int| 0 <= i < j < v.len() ==> (#[trigger] v[i]).id != (#[trigger] v[j]).id
}

/// The error of a request for a sandbox that is not registered.
pub open spec fn not_found(e: AntivirusError) -> bool {
    e matches AntivirusError::Internal(m) && m@ == "Sandbox not found"@
}

proof fn lemma_sandbox_at(v: Seq<SandboxInstance>, id: SandboxId, i: int)
    requires
        0 <= i < v.len(),
        v[i].id == id,
        forall|j: int| 0 <= j < i ==> (#[trigger] v[j]).id != id,
    ensures
        sandbox_of(v, id) == Some(v[i]),
    decreases i,
{
    if i > 0 {
        assert forall|j: int| 0 <= j < i - 1 implies (#[trigger] v.drop_first()[j]).id != id by {
            assert(v.drop_first()[j] == v[j + 1]);
        }
        lemma_sandbox_at(v.drop_first(), id, i - 1);
    }
}

proof fn lemma_sandbox_none(v: Seq<SandboxInstance>, id: SandboxId)
    requires
        forall|j: int| 0 <= j < v.len() ==> (#[trigger] v[j]).id != id,
    ensures
        sandbox_of(v, id) is None,
    decreases v.len(),
{
    if v.len() > 0 {
        assert forall|j: int| 0 <= j < v.len() - 1 implies (#[trigger] v.drop_first()[j]).id != id by {
            assert(v.drop_first()[j] == v[j + 1]);
        }
        lemma_sandbox_none(v.drop_first(), id);
    }
}

proof fn lemma_sandbox_update(v: Seq<SandboxInstance>, i: int, x: SandboxInstance, k: SandboxId)
    requires
        sandbox_ids_distinct(v),
        0 <= i < v.len(),
        x.id == v[i].id,
    ensures
        sandbox_of(v.update(i, x), k) == (if k == x.id { Some(x) } else { sandbox_of(v, k) }),
    decreases v.len(),
{
    let w = v.update(i, x);
    if i == 0 {
        assert(w.drop_first() =~= v.drop_first());
    } else {
        assert(w.drop_first() =~= v.drop_first().update(i - 1, x));
        assert(v[0].id != v[i].id);
        assert forall|a: int, b: int| 0 <= a < b < v.len() - 1 implies (#[trigger] v.drop_first()[a]).id != (
        #[trigger] v.drop_first()[b]).id by {
            assert(v[a + 1].id != v[b + 1].id);
        }
        lemma_sandbox_update(v.drop_first(), i - 1, x, k);
    }
}

proof fn lemma_sandbox_push(v: Seq<SandboxInstance>, x: SandboxInstance, k: SandboxId)
    requires
        forall|j: int| 0 <= j < v.len() ==> (#[trigger] v[j]).id != x.id,
    ensures
        sandbox_of(v.push(x), k) == (if k == x.id { Some(x) } else { sandbox_of(v, k) }),
    decreases v.len(),
{
    if v.len() == 0 {
        assert(v.push(x).drop_first() =~= Seq::<SandboxInstance>::empty());
    } else {
        assert(v.push(x).drop_first() =~= v.drop_first().push(x));
        assert forall|j: int| 0 <= j < v.len() - 1 implies (#[trigger] v.drop_first()[j]).id != x.id by {
            assert(v.drop_first()[j] == v[j + 1]);
        }
        lemma_sandbox_push(v.drop_first(), x, k);
    }
}

proof fn lemma_sandbox_remove(v: Seq<SandboxInstance>, i: int, k: SandboxId)
    requires
        sandbox_ids_distinct(v),
        0 <= i < v.len(),
    ensures
        sandbox_of(v.remove(i), k) == (if k == v[i].id { None } else { sandbox_of(v, k) }),
    decreases v.len(),
{
    let w = v.remove(i);
    if i == 0 {
        assert(w =~= v.drop_first());
        if k == v[0].id {
            assert forall|j: int| 0 <= j < w.len() implies (#[trigger] w[j]).id != k by {
                assert(v[0].id != v[j + 1].id);
            }
            lemma_sandbox_none(w, k);
        }
    } else {
        assert(w[0] == v[0]);
        assert(w.drop_first() =~= v.drop_first().remove(i - 1));
        assert forall|a: int, b: int| 0 <= a < b < v.len() - 1 implies (#[trigger] v.drop_first()[a]).id != (
        #[trigger] v.drop_first()[b]).id by {
            assert(v[a + 1].id != v[b + 1].id);
        }
        assert(v[0].id != v[i].id);
        lemma_sandbox_remove(v.drop_first(), i - 1, k);
    }
}

proof fn lemma_sandbox_some(v: Seq<SandboxInstance>, id: SandboxId, j: int)
    requires
        0 <= j < v.len(),
        v[j].id == id,
    ensures
        sandbox_of(v, id) is Some,
    decreases j,
{
    if v[0].id != id {
        assert(v.drop_first()[j - 1] == v[j]);
        lemma_sandbox_some(v.drop_first(), id, j - 1);
    }
}

proof fn lemma_sandbox_found(v: Seq<SandboxInstance>, id: SandboxId)
    requires
        sandbox_of(v, id) is Some,
    ensures
        exists|i: int| 0 <= i < v.len() && (#[trigger] v[i]).id == id && sandbox_of(v, id) == Some(v[i]),
    decreases v.len(),
{
    if v[0].id != id {
        lemma_sandbox_found(v.drop_first(), id);
        let i = choose|i: int| 0 <= i < v.drop_first().len() && (#[trigger] v.drop_first()[i]).id == id
            && sandbox_of(v.drop_first(), id) == Some(v.drop_first()[i]);
        assert(v[i + 1] == v.drop_first()[i]);
    } else {
        assert(v[0].id == id);
    }
}

/// A new sandbox is idle: not running, nothing recorded, nothing used.
pub proof fn lemma_new_sandbox_idle(s: SandboxInstance, config: SandboxConfig, id: SandboxId, now: Timestamp, dir: Seq<char>)
    requires
        is_new_sandbox(s, config, id, now, dir),
    ensures
        !s.is_running,
        s.behavior_events@.len() == 0,
        s.resource_usage == no_usage(),
        s.start_time == now,
{
}

/// Creating a sandbox and destroying it again leaves every other sandbox
/// as it was and the identifier unknown, so that a later request for it
/// fails as not found.
pub proof fn lemma_create_then_destroy(
    before: Seq<SandboxInstance>,
    created: Seq<SandboxInstance>,
    destroyed: Seq<SandboxInstance>,
    id: SandboxId,
)
    requires
        sandbox_of(created, id) is Some,
        forall|k: SandboxId| k != id ==> #[trigger] sandbox_of(created, k) == sandbox_of(before, k),
        forall|k: SandboxId| #[trigger] sandbox_of(destroyed, k) == (if k == id {
            None
        } else {
            sandbox_of(created, k)
        }),
    ensures
        sandbox_of(destroyed, id) is None,
        forall|k: SandboxId| k != id ==> #[trigger] sandbox_of(destroyed, k) == sandbox_of(before, k),
{
    assert(sandbox_of(destroyed, id) is None);
}

impl SandboxEngine {
    /// The registered sandboxes.
    pub closed spec fn sandboxes(&self) -> Seq<SandboxInstance> {
        self.active_sandboxes@
    }

    /// No two registered sandboxes share an identifier.
    pub closed spec fn wf(&self) -> bool {
        sandbox_ids_distinct(self.active_sandboxes@)
    }

    fn find(&self, id: SandboxId) -> (r: Option<usize>)
        ensures
            r matches Some(i) ==> i < self.active_sandboxes@.len() && self.active_sandboxes@[i as int].id == id
                && sandbox_of(self.active_sandboxes@, id) == Some(self.active_sandboxes@[i as int]),
            r is None ==> sandbox_of(self.active_sandboxes@, id) is None,
    {
        let n = self.active_sandboxes.len();
        for i in 0..n
            invariant
                n == self.active_sandboxes@.len(),
                forall|j: int| 0 <= j < i ==> (#[trigger] self.active_sandboxes@[j]).id != id,
        {
            if self.active_sandboxes[i].id == id {
                proof {
                    lemma_sandbox_at(self.active_sandboxes@, id, i as int);
                }
                return Some(i);
            }
        }
        proof {
            lemma_sandbox_none(self.active_sandboxes@, id);
        }
        None
    }

    fn take_at(&mut self, i: usize) -> (r: SandboxInstance)
        requires
            old(self).wf(),
            i < old(self).sandboxes().len(),
        ensures
            final(self).wf(),
            final(self).default_config == old(self).default_config,
            r == old(self).sandboxes()[i as int],
            forall|k: SandboxId| #[trigger] sandbox_of(final(self).sandboxes(), k) == (if k == r.id {
                None
            } else {
                sandbox_of(old(self).sandboxes(), k)
            }),
    {
        let ghost before = self.active_sandboxes@;
        let s = self.active_sandboxes.remove(i);
        proof {
            assert forall|k: SandboxId| #[trigger] sandbox_of(self.active_sandboxes@, k) == (if k == s.id {
                None
            } else {
                sandbox_of(before, k)
            }) by {
                lemma_sandbox_remove(before, i as int, k);
            }
            let after = self.active_sandboxes@;
            assert forall|a: int, b: int| 0 <= a < b < after.len() implies (#[trigger] after[a]).id != (
            #[trigger] after[b]).id by {
                let a0 = if a < i { a } else { a + 1 };
                let b0 = if b < i { b } else { b + 1 };
                assert(after[a] == before[a0]);
                assert(after[b] == before[b0]);
                assert(before[a0].id != before[b0].id);
            }
        }
        s
    }

    fn put(&mut self, s: SandboxInstance)
        requires
            old(self).wf(),
        ensures
            final(self).wf(),
            final(self).default_config == old(self).default_config,
            forall|k: SandboxId| #[trigger] sandbox_of(final(self).sandboxes(), k) == (if k == s.id {
                Some(s)
            } else {
                sandbox_of(old(self).sandboxes(), k)
            }),
    {
        let ghost before = self.active_sandboxes@;
        let ghost x = s;
        match self.find(s.id) {
            Some(i) => {
                let _ = self.active_sandboxes.remove(i);
                self.active_sandboxes.insert(i, s);
                proof {
                    assert(self.active_sandboxes@ =~= before.update(i as int, x));
                    assert forall|k: SandboxId| #[trigger] sandbox_of(self.active_sandboxes@, k) == (if k == x.id {
                        Some(x)
                    } else {
                        sandbox_of(before, k)
                    }) by {
                        lemma_sandbox_update(before, i as int, x, k);
                    }
                    let after = self.active_sandboxes@;
                    assert forall|a: int, b: int| 0 <= a < b < after.len() implies (#[trigger] after[a]).id != (
                    #[trigger] after[b]).id by {
                        assert(before[a].id != before[b].id);
                    }
                }
            },
            None => {
                proof {
                    assert forall|j: int| 0 <= j < before.len() implies (#[trigger] before[j]).id != x.id by {
                        if before[j].id == x.id {
                            lemma_sandbox_some(before, x.id, j);
                        }
                    }
                }
                self.active_sandboxes.push(s);
                proof {
                    assert forall|k: SandboxId| #[trigger] sandbox_of(self.active_sandboxes@, k) == (if k == x.id {
                        Some(x)
                    } else {
                        sandbox_of(before, k)
                    }) by {
                        lemma_sandbox_push(before, x, k);
                    }
                    let after = self.active_sandboxes@;
                    assert forall|a: int, b: int| 0 <= a < b < after.len() implies (#[trigger] after[a]).id != (
                    #[trigger] after[b]).id by {
                        if b < before.len() {
                            assert(before[a].id != before[b].id);
                        } else {
                            assert(after[b] == x);
                            assert(after[a] == before[a]);
                        }
                    }
                }
            },
        }
    }

    /// Registers a new sandbox `id`, started at `now` in `sandbox_dir`,
    /// with the engine's confinement and its redirections set up; a
    /// sandbox registered under the same identifier is replaced.
    pub fn create_sandbox(&mut self, id: SandboxId, now: Timestamp, sandbox_dir: String) -> (r: SandboxId)
        requires
            old(self).wf(),
        ensures
            r == id,
            final(self).wf(),
            final(self).default_config() == old(self).default_config(),
            sandbox_of(final(self).sandboxes(), id) matches Some(s) && is_new_sandbox(
                s,
                old(self).default_config(),
                id,
                now,
                sandbox_dir@,
            ),
            forall|k: SandboxId| k != id ==> #[trigger] sandbox_of(final(self).sandboxes(), k) == sandbox_of(
                old(self).sandboxes(),
                k,
            ),
    {
        let mut sandbox = SandboxInstance::new(self.default_config, id, now, sandbox_dir);
        sandbox.setup_filesystem_redirection();
        let ghost x = sandbox;
        self.put(sandbox);
        proof {
            assert(sandbox_of(self.sandboxes(), id) == Some(x));
        }
        id
    }

    /// Marks the sandbox as running before a file is executed in it.
    pub fn start_execution(&mut self, id: SandboxId) -> (r: Result<(), AntivirusError>)
        requires
            old(self).wf(),
        ensures
            final(self).wf(),
            final(self).default_config() == old(self).default_config(),
            match sandbox_of(old(self).sandboxes(), id) {
                Some(s) => r is Ok && forall|k: SandboxId| #[trigger] sandbox_of(final(self).sandboxes(), k) == (
                if k == id {
                    Some(SandboxInstance { is_running: true, ..s })
                } else {
                    sandbox_of(old(self).sandboxes(), k)
                }),
                None => (r matches Err(e) && not_found(e)) && final(self).sandboxes() == old(self).sandboxes(),
            },
    {
        self.set_running(id, true)
    }

    /// Marks the sandbox as stopped after an execution, if it is still
    /// registered.
    pub fn finish_execution(&mut self, id: SandboxId)
        requires
            old(self).wf(),
        ensures
            final(self).wf(),
            final(self).default_config() == old(self).default_config(),
            match sandbox_of(old(self).sandboxes(), id) {
                Some(s) => forall|k: SandboxId| #[trigger] sandbox_of(final(self).sandboxes(), k) == (
                if k == id {
                    Some(SandboxInstance { is_running: false, ..s })
                } else {
                    sandbox_of(old(self).sandboxes(), k)
                }),
                None => final(self).sandboxes() == old(self).sandboxes(),
            },
    {
        let _ = self.set_running(id, false);
    }

    fn set_running(&mut self, id: SandboxId, running: bool) -> (r: Result<(), AntivirusError>)
        requires
            old(self).wf(),
        ensures
            final(self).wf(),
            final(self).default_config == old(self).default_config,
            match sandbox_of(old(self).sandboxes(), id) {
                Some(s) => r is Ok && forall|k: SandboxId| #[trigger] sandbox_of(final(self).sandboxes(), k) == (
                if k == id {
                    Some(SandboxInstance { is_running: running, ..s })
                } else {
                    sandbox_of(old(self).sandboxes(), k)
                }),
                None => (r matches Err(e) && not_found(e)) && final(self).sandboxes() == old(self).sandboxes(),
            },
    {
        match self.find(id) {
            Some(i) => {
                let mut s = self.take_at(i);
                s.is_running = running;
                self.put(s);
                Ok(())
            },
            None => {
                proof {
                    reveal_strlit("Sandbox not found");
                }
                Err(AntivirusError::Internal(owned("Sandbox not found")))
            },
        }
    }

    /// Takes the sandbox out of the registry and stops it; its directory
    /// is removed by the caller.
    pub fn destroy_sandbox(&mut self, id: SandboxId) -> (r: Result<SandboxInstance, AntivirusError>)
        requires
            old(self).wf(),
        ensures
            final(self).wf(),
            final(self).default_config() == old(self).default_config(),
            match sandbox_of(old(self).sandboxes(), id) {
                Some(s) => r == Ok::<SandboxInstance, AntivirusError>(SandboxInstance { is_running: false, ..s })
                    && forall|k: SandboxId| #[trigger] sandbox_of(final(self).sandboxes(), k) == (if k == id {
                    None
                } else {
                    sandbox_of(old(self).sandboxes(), k)
                }),
                None => (r matches Err(e) && not_found(e)) && final(self).sandboxes() == old(self).sandboxes(),
            },
    {
        match self.find(id) {
            Some(i) => {
                let mut s = self.take_at(i);
                s.cleanup();
                Ok(s)
            },
            None => {
                proof {
                    reveal_strlit("Sandbox not found");
                }
                Err(AntivirusError::Internal(owned("Sandbox not found")))
            },
        }
    }

    /// Whether the sandbox is running, since when, and what it used.
    pub fn get_sandbox_status(&self, id: SandboxId) -> (r: Result<SandboxStatus, AntivirusError>)
        ensures
            match sandbox_of(self.sandboxes(), id) {
                Some(s) => r matches Ok(st) && st.is_running == s.is_running && st.start_time == s.start_time
                    && st.resource_usage == s.resource_usage,
                None => r matches Err(e) && not_found(e),
            },
    {
        match self.find(id) {
            Some(i) => {
                let s = &self.active_sandboxes[i];
                Ok(SandboxStatus { is_running: s.is_running, start_time: s.start_time, resource_usage: s.get_resource_usage() })
            },
            None => {
                proof {
                    reveal_strlit("Sandbox not found");
                }
                Err(AntivirusError::Internal(owned("Sandbox not found")))
            },
        }
    }

    /// The confinement of the sandbox.
    pub fn sandbox_config(&self, id: SandboxId) -> (r: Result<SandboxConfig, AntivirusError>)
        ensures
            match sandbox_of(self.sandboxes(), id) {
                Some(s) => r == Ok::<SandboxConfig, AntivirusError>(s.config),
                None => r matches Err(e) && not_found(e),
            },
    {
        match self.find(id) {
            Some(i) => Ok(self.active_sandboxes[i].config),
            None => {
                proof {
                    reveal_strlit("Sandbox not found");
                }
                Err(AntivirusError::Internal(owned("Sandbox not found")))
            },
        }
    }

    fn sandbox_path(&self, id: SandboxId, name: &str) -> (r: Result<String, AntivirusError>)
        ensures
            match sandbox_of(self.sandboxes(), id) {
                Some(s) => r matches Ok(p) && p@ == joined(s.sandbox_dir@, name@),
                None => r matches Err(e) && not_found(e),
            },
    {
        match self.find(id) {
            Some(i) => Ok(join_path(self.active_sandboxes[i].sandbox_dir.as_str(), name)),
            None => {
                proof {
                    reveal_strlit("Sandbox not found");
                }
                Err(AntivirusError::Internal(owned("Sandbox not found")))
            },
        }
    }

    /// The temporary directory of the sandbox: `temp` in its directory.
    pub fn get_sandbox_temp_dir(&self, id: SandboxId) -> (r: Result<String, AntivirusError>)
        ensures
            match sandbox_of(self.sandboxes(), id) {
                Some(s) => r matches Ok(p) && p@ == joined(s.sandbox_dir@, "temp"@),
                None => r matches Err(e) && not_found(e),
            },
    {
        self.sandbox_path(id, "temp")
    }

    /// Where the file to run is copied: `target_executable.exe` in the
    /// sandbox's directory.
    pub fn get_sandbox_target_path(&self, id: SandboxId) -> (r: Result<String, AntivirusError>)
        ensures
            match sandbox_of(self.sandboxes(), id) {
                Some(s) => r matches Ok(p) && p@ == joined(s.sandbox_dir@, "target_executable.exe"@),
                None => r matches Err(e) && not_found(e),
            },
    {
        self.sandbox_path(id, "target_executable.exe")
    }

    /// The redirections of the sandbox, none when it is not registered.
    pub fn redirections_of(&self, id: SandboxId) -> (r: Vec<(String, String)>)
        ensures
            match sandbox_of(self.sandboxes(), id) {
                Some(s) => r@ == s.redirected_paths@,
                None => r@.len() == 0,
            },
    {
        match self.find(id) {
            Some(i) => clone_pairs(self.active_sandboxes[i].redirected_paths.as_slice()),
            None => Vec::new(),
        }
    }

    /// The events recorded in the sandbox, none when it is not registered.
    pub fn behavior_events_of(&self, id: SandboxId) -> (r: Vec<BehaviorEvent>)
        ensures
            match sandbox_of(self.sandboxes(), id) {
                Some(s) => same_events(r@, s.behavior_events@),
                None => r@.len() == 0,
            },
    {
        match self.find(id) {
            Some(i) => self.active_sandboxes[i].get_behavior_events(),
            None => Vec::new(),
        }
    }
}

} // verus!
