//! The decisions of the event logging system: severities and the level at
//! which an event is emitted, per-type event counts, and when and how log
//! files are rotated, archived and removed. Emitting and file handling are
//! the caller's.
use vstd::prelude::*;
use vstd::string::StringExecFns;
use crate::clock::{new_id_text, now_millis, hyphenated_uuid, uuid_text, uuid_to_text};
use crate::config::LoggingConfig;
use crate::ranking::{keyed_views, lemma_ranked_len, lemma_ranked_sorted, rank_descending, ranked};
use crate::pairs::pair_views;
use crate::paths::{extension, extension_of, file_name, file_name_of, file_stem, file_stem_of, join_path, joined};
use crate::text::{decimal, owned, seq_contains, str_contains, str_eq, text_views, u64_to_string};
use crate::types::{QuarantineId, ScanId, ThreatInfo, ThreatSeverity, Timestamp, threat_type_name, detection_method_name};

verus! {

/// Severity of a security event.
#[derive(Debug, Clone, Copy, PartialEq, Eq, Structural)]
pub enum SecurityEventSeverity {
    Low,
    Medium,
    High,
    Critical,
}

/// Kinds of scan events.
#[derive(Debug, Clone, Copy, PartialEq, Eq, Structural)]
pub enum ScanEventType {
    ScanStarted,
    ScanCompleted,
    ScanCancelled,
    ScanFailed,
    FileScanned,
    ThreatDetected,
    FileQuarantined,
    FileSkipped,
}

/// Operations on the quarantine.
#[derive(Debug, Clone, Copy, PartialEq, Eq, Structural)]
pub enum QuarantineOperation {
    Quarantine,
    Restore,
    Delete,
    List,
}

/// Severity of a structured event.
#[derive(Debug, Clone, Copy, PartialEq, Eq, Structural)]
pub enum EventSeverity {
    Debug,
    Low,
    Medium,
    High,
    Critical,
}

/// Kinds of audited events.
#[derive(Debug, Clone, Copy, PartialEq, Eq, Structural)]
pub enum AuditEventType {
    Authentication,
    Authorization,
    Configuration,
    ScanOperation,
    QuarantineOperation,
    UpdateOperation,
    PolicyChange,
}

/// Outcome of an audited action.
#[derive(Debug, Clone, Copy, PartialEq, Eq, Structural)]
pub enum AuditResult {
    Success,
    Failure,
    Partial,
}

/// The level at which an event is emitted.
#[derive(Debug, Clone, Copy, PartialEq, Eq, Structural)]
pub enum TraceLevel {
    Error,
    Warn,
    Info,
    Debug,
}

/// The event severity of a security event's severity.
pub open spec fn event_severity_of(s: SecurityEventSeverity) -> EventSeverity {
    match s {
        SecurityEventSeverity::Critical => EventSeverity::Critical,
        SecurityEventSeverity::High => EventSeverity::High,
        SecurityEventSeverity::Medium => EventSeverity::Medium,
        SecurityEventSeverity::Low => EventSeverity::Low,
    }
}

/// The level of an event of the given severity: critical events are
/// errors, high ones warnings, medium and low ones information.
pub open spec fn level_of(s: EventSeverity) -> TraceLevel {
    match s {
        EventSeverity::Critical => TraceLevel::Error,
        EventSeverity::High => TraceLevel::Warn,
        EventSeverity::Medium | EventSeverity::Low => TraceLevel::Info,
        EventSeverity::Debug => TraceLevel::Debug,
    }
}

/// The event severity of a threat's severity: the level of the same name.
pub open spec fn threat_event_severity(s: ThreatSeverity) -> EventSeverity {
    match s {
        ThreatSeverity::Critical => EventSeverity::Critical,
        ThreatSeverity::High => EventSeverity::High,
        ThreatSeverity::Medium => EventSeverity::Medium,
        ThreatSeverity::Low => EventSeverity::Low,
    }
}

impl EventSeverity {
    /// The event severity of a security event.
    pub fn from_security(s: SecurityEventSeverity) -> (r: EventSeverity)
        ensures
            r == event_severity_of(s),
    {
        match s {
            SecurityEventSeverity::Critical => EventSeverity::Critical,
            SecurityEventSeverity::High => EventSeverity::High,
            SecurityEventSeverity::Medium => EventSeverity::Medium,
            SecurityEventSeverity::Low => EventSeverity::Low,
        }
    }

    /// The event severity of a threat's severity.
    pub fn from_threat(s: ThreatSeverity) -> (r: EventSeverity)
        ensures
            r == threat_event_severity(s),
    {
        match s {
            ThreatSeverity::Critical => EventSeverity::Critical,
            ThreatSeverity::High => EventSeverity::High,
            ThreatSeverity::Medium => EventSeverity::Medium,
            ThreatSeverity::Low => EventSeverity::Low,
        }
    }

    /// The level at which an event of this severity is emitted.
    pub fn trace_level(&self) -> (r: TraceLevel)
        ensures
            r == level_of(*self),
    {
        match self {
            EventSeverity::Critical => TraceLevel::Error,
            EventSeverity::High => TraceLevel::Warn,
            EventSeverity::Medium | EventSeverity::Low => TraceLevel::Info,
            EventSeverity::Debug => TraceLevel::Debug,
        }
    }
}

/// The level of a security event: errors for critical, warnings for high,
/// information otherwise.
pub fn security_trace_level(s: SecurityEventSeverity) -> (r: TraceLevel)
    ensures
        r == level_of(event_severity_of(s)),
{
    EventSeverity::from_security(s).trace_level()
}

/// The name of a quarantine operation, as its variant is written.
pub open spec fn operation_name(o: QuarantineOperation) -> Seq<char> {
    match o {
        QuarantineOperation::Quarantine => "Quarantine"@,
        QuarantineOperation::Restore => "Restore"@,
        QuarantineOperation::Delete => "Delete"@,
        QuarantineOperation::List => "List"@,
    }
}

impl QuarantineOperation {
    /// The operation's name.
    pub fn name(&self) -> (r: &'static str)
        ensures
            r@ == operation_name(*self),
    {
        match self {
            QuarantineOperation::Quarantine => "Quarantine",
            QuarantineOperation::Restore => "Restore",
            QuarantineOperation::Delete => "Delete",
            QuarantineOperation::List => "List",
        }
    }

    /// Severity and message of the structured event for an operation on
    /// `file_path` that succeeded, or failed with `error`.
    pub fn outcome_event(&self, file_path: &str, error: Option<&str>) -> (r: (EventSeverity, String))
        ensures
            match error {
                None => r.0 == EventSeverity::Medium && r.1@ == "Quarantine operation "@
                    + operation_name(*self) + " successful for "@ + file_path@,
                Some(e) => r.0 == EventSeverity::High && r.1@ == "Quarantine operation "@
                    + operation_name(*self) + " failed for "@ + file_path@ + ": "@ + e@,
            },
    {
        let mut m = owned("Quarantine operation ");
        m.append(self.name());
        match error {
            None => {
                m.append(" successful for ");
                m.append(file_path);
                (EventSeverity::Medium, m)
            },
            Some(e) => {
                m.append(" failed for ");
                m.append(file_path);
                m.append(": ");
                m.append(e);
                (EventSeverity::High, m)
            },
        }
    }
}

/// Level and message with which a detected threat is logged: a warning
/// naming the threat and its file.
pub fn log_threat_detection(threat_info: &ThreatInfo) -> (r: (TraceLevel, String))
    ensures
        r.0 == TraceLevel::Warn,
        r.1@ == "THREAT DETECTED: "@ + threat_info.name@ + " in "@ + threat_info.file_path@,
{
    let mut m = owned("THREAT DETECTED: ");
    m.append(threat_info.name.as_str());
    m.append(" in ");
    m.append(threat_info.file_path.as_str());
    (TraceLevel::Warn, m)
}

/// The fields that a quarantine operation is logged with: the operation,
/// the entry's identifier, the file, and the failure's text when there is
/// one.
pub open spec fn quarantine_fields(
    operation: QuarantineOperation,
    quarantine_id: QuarantineId,
    file_path: Seq<char>,
    error: Option<Seq<char>>,
) -> Seq<(Seq<char>, Seq<char>)> {
    let base = seq![
        ("operation"@, operation_name(operation)),
        ("quarantine_id"@, uuid_text(quarantine_id)),
        ("file_path"@, file_path),
    ];
    match error {
        None => base,
        Some(e) => base.push(("error"@, e)),
    }
}

/// Level, message and fields with which a quarantine operation on
/// `file_path` is logged: information when it succeeded, an error with the
/// failure's text when it failed with `error`.
pub fn log_quarantine_operation(
    operation: QuarantineOperation,
    quarantine_id: QuarantineId,
    file_path: &str,
    error: Option<&str>,
) -> (r: (TraceLevel, String, Vec<(String, String)>))
    ensures
        match error {
            None => r.0 == TraceLevel::Info && r.1@ == "QUARANTINE OPERATION: "@
                + operation_name(operation) + " successful for "@ + file_path@,
            Some(e) => r.0 == TraceLevel::Error && r.1@ == "QUARANTINE OPERATION: "@
                + operation_name(operation) + " failed for "@ + file_path@ + ": "@ + e@,
        },
        pair_views(r.2@) == quarantine_fields(operation, quarantine_id, file_path@, match error {
            Some(e) => Some(e@),
            None => None,
        }),
{
    let mut fields: Vec<(String, String)> = Vec::new();
    let op = operation.name();
    let id = uuid_to_text(quarantine_id);
    fields.push((owned("operation"), owned(op)));
    fields.push((owned("quarantine_id"), id));
    fields.push((owned("file_path"), owned(file_path)));
    let mut m = owned("QUARANTINE OPERATION: ");
    m.append(operation.name());
    match error {
        None => {
            m.append(" successful for ");
            m.append(file_path);
            assert(pair_views(fields@) =~= quarantine_fields(operation, quarantine_id, file_path@, None));
            (TraceLevel::Info, m, fields)
        },
        Some(e) => {
            fields.push((owned("error"), owned(e)));
            m.append(" failed for ");
            m.append(file_path);
            m.append(": ");
            m.append(e);
            assert(pair_views(fields@) =~= quarantine_fields(operation, quarantine_id, file_path@, Some(e@)));
            (TraceLevel::Error, m, fields)
        },
    }
}

/// A JSON value, carried through the library as event details.
#[verifier::external_type_specification]
#[verifier::external_body]
pub struct ExJsonValue(serde_json::Value);

/// A security event as it is recorded.
#[derive(Debug, Clone)]
pub struct SecurityEvent {
    pub event_type: String,
    pub severity: SecurityEventSeverity,
    pub message: String,
    pub timestamp: Timestamp,
    pub additional_data: Option<serde_json::Value>,
}

/// A scan event as it is recorded.
#[derive(Debug, Clone)]
pub struct ScanEvent {
    pub event_type: ScanEventType,
    pub message: String,
    pub timestamp: Timestamp,
    pub details: Option<serde_json::Value>,
}

/// A security monitor's event of the given type, severity and message,
/// stamped now, with the additional data as its details, and the level and
/// message it is logged with: errors for critical events, warnings for high
/// ones, information otherwise.
pub fn log_security_event(
    event_type: &str,
    severity: SecurityEventSeverity,
    message: &str,
    additional_data: Option<serde_json::Value>,
) -> (r: (StructuredEvent, TraceLevel, String))
    ensures
        new_event(r.0, event_type@, event_severity_of(severity), "security_monitor"@, message@),
        r.0.user is None,
        r.0.details == additional_data,
        r.1 == level_of(event_severity_of(severity)),
        r.2@ == "SECURITY EVENT: "@ + message@,
{
    let event = StructuredEvent::new(event_type, EventSeverity::from_security(severity), "security_monitor", message);
    let event = match additional_data {
        Some(data) => event.with_details(data),
        None => event,
    };
    let mut m = owned("SECURITY EVENT: ");
    m.append(message);
    (event, security_trace_level(severity), m)
}

/// An event with its identity, time, origin and optional context.
#[derive(Debug, Clone)]
pub struct StructuredEvent {
    pub event_id: String,
    pub event_type: String,
    pub severity: EventSeverity,
    pub timestamp: Timestamp,
    pub source: String,
    pub user: Option<String>,
    pub message: String,
    pub details: Option<serde_json::Value>,
    pub correlation_id: Option<String>,
    pub session_id: Option<String>,
}

impl StructuredEvent {
    /// A new event with a fresh identifier, stamped now, with no user,
    /// details, correlation or session.
    pub fn new(event_type: &str, severity: EventSeverity, source: &str, message: &str) -> (r: Self)
        ensures
            hyphenated_uuid(r.event_id@),
            r.event_type@ == event_type@,
            r.severity == severity,
            r.source@ == source@,
            r.message@ == message@,
            r.user is None,
            r.details is None,
            r.correlation_id is None,
            r.session_id is None,
    {
        StructuredEvent {
            event_id: new_id_text(),
            event_type: owned(event_type),
            severity,
            timestamp: now_millis(),
            source: owned(source),
            user: None,
            message: owned(message),
            details: None,
            correlation_id: None,
            session_id: None,
        }
    }

    /// The event, attributed to `user`.
    pub fn with_user(self, user: &str) -> (r: Self)
        ensures
            r.user matches Some(u) && u@ == user@,
            r == (StructuredEvent { user: r.user, ..self }),
    {
        StructuredEvent { user: Some(owned(user)), ..self }
    }

    /// The event, with `details` attached.
    pub fn with_details(self, details: serde_json::Value) -> (r: Self)
        ensures
            r == (StructuredEvent { details: Some(details), ..self }),
    {
        StructuredEvent { details: Some(details), ..self }
    }

    /// The event, in the correlation `correlation_id`.
    pub fn with_correlation_id(self, correlation_id: &str) -> (r: Self)
        ensures
            r.correlation_id matches Some(c) && c@ == correlation_id@,
            r == (StructuredEvent { correlation_id: r.correlation_id, ..self }),
    {
        StructuredEvent { correlation_id: Some(owned(correlation_id)), ..self }
    }

    /// The event, in the session `session_id`.
    pub fn with_session_id(self, session_id: &str) -> (r: Self)
        ensures
            r.session_id matches Some(c) && c@ == session_id@,
            r == (StructuredEvent { session_id: r.session_id, ..self }),
    {
        StructuredEvent { session_id: Some(owned(session_id)), ..self }
    }

    /// The user the event is logged under: its own, or `system`.
    pub fn logged_user(&self) -> (r: &str)
        ensures
            r@ == (match self.user {
                Some(u) => u@,
                None => "system"@,
            }),
    {
        match &self.user {
            Some(u) => u.as_str(),
            None => "system",
        }
    }
}

/// An audited action.
#[derive(Debug, Clone)]
pub struct AuditEvent {
    pub event_type: AuditEventType,
    pub user: String,
    pub timestamp: Timestamp,
    pub resource: String,
    pub action: String,
    pub result: AuditResult,
    pub details: Option<serde_json::Value>,
}

/// The name of an audit result, as its variant is written.
pub open spec fn audit_result_name(r: AuditResult) -> Seq<char> {
    match r {
        AuditResult::Success => "Success"@,
        AuditResult::Failure => "Failure"@,
        AuditResult::Partial => "Partial"@,
    }
}

impl AuditResult {
    /// The result's name.
    pub fn name(&self) -> (r: &'static str)
        ensures
            r@ == audit_result_name(*self),
    {
        match self {
            AuditResult::Success => "Success",
            AuditResult::Failure => "Failure",
            AuditResult::Partial => "Partial",
        }
    }
}

/// The number of events counted under `t`.
pub open spec fn count_of(c: Seq<(String, u64)>, t: Seq<char>) -> int
    decreases c.len(),
{
    if c.len() == 0 {
        0
    } else if c[0].0@ == t {
        c[0].1 as int
    } else {
        count_of(c.drop_first(), t)
    }
}

/// The counted event types, in the order they were first counted.
pub open spec fn counter_keys(c: Seq<(String, u64)>) -> Seq<Seq<char>> {
    Seq::new(c.len(), |i: int| c[i].0@)
}

/// The counts as type and number.
pub open spec fn counter_views(c: Seq<(String, u64)>) -> Seq<(Seq<char>, u64)> {
    Seq::new(c.len(), |i: int| (c[i].0@, c[i].1))
}

/// The counted types after one more event of type `t`: unchanged when `t`
/// was already counted, else `t` added last.
pub open spec fn keys_after(before: Seq<Seq<char>>, t: Seq<char>) -> Seq<Seq<char>> {
    if before.contains(t) {
        before
    } else {
        before.push(t)
    }
}

/// No event type is counted twice.
pub open spec fn types_distinct(c: Seq<(String, u64)>) -> bool {
    forall|i: int, j: int| 0 <= i < j < c.len() ==> c[i].0@ != c[j].0@
}

/// Whether audit events are written.
pub struct AuditLogger {
    enabled: bool,
}

impl AuditLogger {
    /// An audit logger, writing events when enabled.
    pub fn new(enabled: bool) -> (r: Self)
        ensures
            r.is_enabled() == enabled,
    {
        AuditLogger { enabled }
    }

    /// Whether audit events are written.
    #[verifier::when_used_as_spec(spec_is_enabled)]
    pub fn is_enabled(&self) -> (r: bool)
        ensures
            r == self.spec_is_enabled(),
    {
        self.enabled
    }

    /// Whether audit events are written.
    pub closed spec fn spec_is_enabled(&self) -> bool {
        self.enabled
    }

    /// The message with which an audit event is logged, at information
    /// level; none when auditing is off.
    pub fn log_audit_event(&self, event: &AuditEvent) -> (r: Option<String>)
        ensures
            r is Some <==> self.is_enabled(),
            r matches Some(m) ==> m@ == "AUDIT EVENT: "@ + event.user@ + " performed "@
                + event.action@ + " on "@ + event.resource@ + " with result "@
                + audit_result_name(event.result),
    {
        if !self.enabled {
            return None;
        }
        let mut m = owned("AUDIT EVENT: ");
        m.append(event.user.as_str());
        m.append(" performed ");
        m.append(event.action.as_str());
        m.append(" on ");
        m.append(event.resource.as_str());
        m.append(" with result ");
        m.append(event.result.name());
        Some(m)
    }
}

/// When the log file is rotated, where its copies go and how many are kept.
pub struct LogRotator {
    log_file_path: String,
    max_file_size_mb: u64,
    max_files: u32,
    archive_path: String,
}

/// Bytes in a mebibyte.
pub const MIB: u64 = 1024 * 1024;

/// Seconds in a day.
pub const SECS_PER_DAY: u64 = 86400;

/// A file in the archive directory as the caller lists it: its name,
/// whether it is a regular file, and its creation time in seconds since
/// the Unix epoch when the system reports one.
#[derive(Debug, Clone)]
pub struct ArchiveEntry {
    pub name: String,
    pub is_file: bool,
    pub created_secs: Option<u64>,
}

/// The renames that archiving makes in `dir`: each regular file with the
/// extension `log` gets `.archived` appended to its name.
pub open spec fn archive_plan(dir: Seq<char>, e: Seq<ArchiveEntry>) -> Seq<(Seq<char>, Seq<char>)>
    decreases e.len(),
{
    if e.len() == 0 {
        Seq::empty()
    } else {
        let rest = archive_plan(dir, e.drop_last());
        let x = e.last();
        if x.is_file && extension(x.name@) == Some("log"@) {
            rest.push((joined(dir, x.name@), joined(dir, x.name@ + ".archived"@)))
        } else {
            rest
        }
    }
}

/// The files of `dir` that cleanup removes: regular files created before
/// `cutoff`. A file whose creation time is unknown stays.
pub open spec fn expired_plan(dir: Seq<char>, e: Seq<ArchiveEntry>, cutoff: u64) -> Seq<Seq<char>>
    decreases e.len(),
{
    if e.len() == 0 {
        Seq::empty()
    } else {
        let rest = expired_plan(dir, e.drop_last(), cutoff);
        let x = e.last();
        if x.is_file && (x.created_secs matches Some(c) && c < cutoff) {
            rest.push(joined(dir, x.name@))
        } else {
            rest
        }
    }
}

/// The regular files among the entries, each with its creation time (the
/// epoch when unknown), in listing order.
pub open spec fn dated_files(e: Seq<ArchiveEntry>) -> Seq<(Seq<char>, u64)>
    decreases e.len(),
{
    if e.len() == 0 {
        Seq::empty()
    } else {
        let rest = dated_files(e.drop_last());
        let x = e.last();
        if x.is_file {
            rest.push((x.name@, match x.created_secs {
                Some(c) => c,
                None => 0,
            }))
        } else {
            rest
        }
    }
}

/// The files of `dir` that the count limit removes: the regular files
/// beyond the newest `keep`.
pub open spec fn excess_plan(dir: Seq<char>, e: Seq<ArchiveEntry>, keep: nat) -> Seq<Seq<char>> {
    let sorted = ranked(dated_files(e));
    if sorted.len() <= keep {
        Seq::empty()
    } else {
        Seq::new((sorted.len() - keep) as nat, |i: int| joined(dir, sorted[keep + i].0))
    }
}

/// The count limit removes as many files as exceed it, and only the oldest:
/// every file removed was created no later than every file kept.
pub proof fn lemma_excess_removes_oldest(dir: Seq<char>, e: Seq<ArchiveEntry>, keep: nat)
    ensures
        excess_plan(dir, e, keep).len() == (if dated_files(e).len() > keep { dated_files(e).len() - keep } else { 0 }),
        forall|i: int, j: int|
            0 <= j < keep <= i < dated_files(e).len() ==> #[trigger] ranked(dated_files(e))[j].1 >= #[trigger] ranked(
                dated_files(e),
            )[i].1,
{
    lemma_ranked_len(dated_files(e));
    lemma_ranked_sorted(dated_files(e));
}

impl LogRotator {
    /// A rotator for the configured log file, archiving into `archive_path`.
    pub fn new(config: &LoggingConfig, archive_path: String) -> (r: Self)
        ensures
            r.spec_log_file_path()@ == config.log_file_path@,
            r.max_file_size_mb() == config.max_log_file_size_mb,
            r.max_files() == config.max_log_files,
            r.spec_archive_path()@ == archive_path@,
    {
        LogRotator {
            log_file_path: config.log_file_path.clone(),
            max_file_size_mb: config.max_log_file_size_mb,
            max_files: config.max_log_files,
            archive_path,
        }
    }

    /// The log file.
    pub fn log_file_path(&self) -> (r: &String)
        ensures
            *r == self.spec_log_file_path(),
    {
        &self.log_file_path
    }

    /// The log file.
    pub closed spec fn spec_log_file_path(&self) -> String {
        self.log_file_path
    }

    /// The size, in MiB, at which the log is rotated.
    #[verifier::when_used_as_spec(spec_max_file_size_mb)]
    pub fn max_file_size_mb(&self) -> (r: u64)
        ensures
            r == self.spec_max_file_size_mb(),
    {
        self.max_file_size_mb
    }

    /// The size, in MiB, at which the log is rotated.
    pub closed spec fn spec_max_file_size_mb(&self) -> u64 {
        self.max_file_size_mb
    }

    /// How many rotated files are kept.
    #[verifier::when_used_as_spec(spec_max_files)]
    pub fn max_files(&self) -> (r: u32)
        ensures
            r == self.spec_max_files(),
    {
        self.max_files
    }

    /// How many rotated files are kept.
    pub closed spec fn spec_max_files(&self) -> u32 {
        self.max_files
    }

    /// Where rotated files go.
    pub fn archive_path(&self) -> (r: &String)
        ensures
            *r == self.spec_archive_path(),
    {
        &self.archive_path
    }

    /// Where rotated files go.
    pub closed spec fn spec_archive_path(&self) -> String {
        self.archive_path
    }

    /// Whether a log file of `file_len` bytes is rotated: its size in whole
    /// MiB reaches the limit.
    pub fn needs_rotation(&self, file_len: u64) -> (r: bool)
        ensures
            r == (file_len / MIB >= self.max_file_size_mb()),
    {
        file_len / MIB >= self.max_file_size_mb
    }

    /// The name of the rotated copy: stem, `_`, the time in seconds, `.`,
    /// extension.
    pub fn rotated_name(stem: &str, timestamp_secs: u64, extension: &str) -> (r: String)
        ensures
            r@ == stem@ + "_"@ + decimal(timestamp_secs as nat) + "."@ + extension@,
    {
        let mut s = owned(stem);
        s.append("_");
        let t = u64_to_string(timestamp_secs);
        s.append(t.as_str());
        s.append(".");
        s.append(extension);
        s
    }

    /// The name under which an old log is archived.
    pub fn archived_name(file_name: &str) -> (r: String)
        ensures
            r@ == file_name@ + ".archived"@,
    {
        let mut s = owned(file_name);
        s.append(".archived");
        s
    }

    /// The time before which archived logs are removed: `days_to_keep` days
    /// before `now_secs`.
    pub fn cleanup_cutoff(now_secs: u64, days_to_keep: u32) -> (r: u64)
        requires
            now_secs >= days_to_keep as u64 * SECS_PER_DAY,
        ensures
            r == now_secs - days_to_keep as u64 * SECS_PER_DAY,
    {
        now_secs - days_to_keep as u64 * SECS_PER_DAY
    }

    /// Whether a file created at `created_secs` is removed.
    pub fn is_expired(created_secs: u64, cutoff_secs: u64) -> (r: bool)
        ensures
            r == (created_secs < cutoff_secs),
    {
        created_secs < cutoff_secs
    }

    /// How many of `count` rotated files are removed: those beyond the
    /// newest `max_files`.
    pub fn excess_count(&self, count: usize) -> (r: usize)
        ensures
            r == (if count > self.max_files() { count - self.max_files() } else { 0 }),
    {
        let keep = self.max_files as usize;
        if count > keep {
            count - keep
        } else {
            0
        }
    }

    /// The renames that archiving makes among the files of the archive
    /// directory: each regular `.log` file gets `.archived` appended.
    pub fn archive_old_logs(&self, entries: &[ArchiveEntry]) -> (r: Vec<(String, String)>)
        ensures
            pair_views(r@) == archive_plan(self.spec_archive_path()@, entries@),
    {
        let mut r: Vec<(String, String)> = Vec::new();
        let n = entries.len();
        proof {
            reveal_strlit("log");
            reveal_strlit(".archived");
            assert(entries@.take(0) =~= Seq::<ArchiveEntry>::empty());
            assert(pair_views(r@) =~= Seq::<(Seq<char>, Seq<char>)>::empty());
        }
        for i in 0..n
            invariant
                n == entries@.len(),
                pair_views(r@) == archive_plan(self.archive_path@, entries@.take(i as int)),
        {
            assert(entries@.take(i + 1).drop_last() =~= entries@.take(i as int));
            assert(entries@.take(i + 1).last() == entries@[i as int]);
            let e = &entries[i];
            if e.is_file {
                let is_log = match extension_of(e.name.as_str()) {
                    Some(x) => str_eq(x.as_str(), "log"),
                    None => false,
                };
                if is_log {
                    let from = join_path(self.archive_path.as_str(), e.name.as_str());
                    let mut archived = owned(e.name.as_str());
                    archived.append(".archived");
                    let to = join_path(self.archive_path.as_str(), archived.as_str());
                    let ghost before = pair_views(r@);
                    r.push((from, to));
                    assert(pair_views(r@) =~= before.push((from@, to@)));
                }
            }
        }
        assert(entries@.take(n as int) =~= entries@);
        r
    }

    /// The files that cleanup removes from the archive directory: regular
    /// files created more than `days_to_keep` days before `now_secs`.
    pub fn cleanup_old_logs(&self, entries: &[ArchiveEntry], now_secs: u64, days_to_keep: u32) -> (r: Vec<String>)
        requires
            now_secs >= days_to_keep as u64 * SECS_PER_DAY,
        ensures
            text_views(r@) == expired_plan(
                self.spec_archive_path()@,
                entries@,
                (now_secs - days_to_keep as u64 * SECS_PER_DAY) as u64,
            ),
    {
        let cutoff = Self::cleanup_cutoff(now_secs, days_to_keep);
        let mut r: Vec<String> = Vec::new();
        let n = entries.len();
        proof {
            assert(entries@.take(0) =~= Seq::<ArchiveEntry>::empty());
            assert(text_views(r@) =~= Seq::<Seq<char>>::empty());
        }
        for i in 0..n
            invariant
                n == entries@.len(),
                text_views(r@) == expired_plan(self.archive_path@, entries@.take(i as int), cutoff),
        {
            assert(entries@.take(i + 1).drop_last() =~= entries@.take(i as int));
            assert(entries@.take(i + 1).last() == entries@[i as int]);
            let e = &entries[i];
            if e.is_file {
                if let Some(c) = e.created_secs {
                    if Self::is_expired(c, cutoff) {
                        let p = join_path(self.archive_path.as_str(), e.name.as_str());
                        let ghost before = text_views(r@);
                        r.push(p);
                        assert(text_views(r@) =~= before.push(p@));
                    }
                }
            }
        }
        assert(entries@.take(n as int) =~= entries@);
        r
    }

    /// The files that the count limit removes from the archive directory:
    /// the regular files beyond the newest `max_files`, files created at
    /// the same time kept in listing order.
    pub fn cleanup_excess_files(&self, entries: &[ArchiveEntry]) -> (r: Vec<String>)
        ensures
            text_views(r@) == excess_plan(self.spec_archive_path()@, entries@, self.max_files() as nat),
    {
        let mut files: Vec<(String, u64)> = Vec::new();
        let n = entries.len();
        proof {
            assert(entries@.take(0) =~= Seq::<ArchiveEntry>::empty());
            assert(keyed_views(files@) =~= Seq::<(Seq<char>, u64)>::empty());
        }
        for i in 0..n
            invariant
                n == entries@.len(),
                keyed_views(files@) == dated_files(entries@.take(i as int)),
        {
            assert(entries@.take(i + 1).drop_last() =~= entries@.take(i as int));
            assert(entries@.take(i + 1).last() == entries@[i as int]);
            let e = &entries[i];
            if e.is_file {
                let c: u64 = match e.created_secs {
                    Some(c) => c,
                    None => 0,
                };
                let ghost before = keyed_views(files@);
                let name = owned(e.name.as_str());
                files.push((name, c));
                assert(keyed_views(files@) =~= before.push((e.name@, c)));
            }
        }
        assert(entries@.take(n as int) =~= entries@);
        let ghost all = keyed_views(files@);
        let sorted = rank_descending(files.as_slice());
        proof {
            lemma_ranked_len(all);
        }
        let keep = self.max_files as usize;
        let mut r: Vec<String> = Vec::new();
        if sorted.len() > keep {
            let mut j: usize = keep;
            while j < sorted.len()
                invariant
                    keep <= j <= sorted@.len(),
                    keyed_views(sorted@) == ranked(all),
                    keep == self.max_files as usize,
                    text_views(r@) == Seq::new((j - keep) as nat, |t: int| joined(self.archive_path@, ranked(all)[keep + t].0)),
                decreases sorted@.len() - j,
            {
                let p = join_path(self.archive_path.as_str(), sorted[j].0.as_str());
                let ghost before = r@;
                assert(text_views(before).len() == before.len());
                assert(text_views(before).len() == j - keep);
                let ghost nf = ranked(all);
                let ghost dir = self.archive_path@;
                let ghost pv = p@;
                r.push(p);
                proof {
                    assert(r@ == before.push(p));
                    assert(before.len() == j - keep);
                    assert(keyed_views(sorted@)[j as int] == (sorted@[j as int].0@, sorted@[j as int].1));
                    assert(nf[j as int].0 == sorted@[j as int].0@);
                    let want = Seq::new((j + 1 - keep) as nat, |t: int| joined(dir, nf[keep + t].0));
                    assert forall|t: int| 0 <= t < want.len() implies #[trigger] text_views(r@)[t] == want[t] by {
                        if t < j - keep {
                            assert(r@[t] == before[t]);
                            assert(text_views(before)[t] == before[t]@);
                        } else {
                            assert(t == j - keep);
                            assert(r@[t]@ == pv);
                        }
                    }
                    assert(text_views(r@) =~= want);
                }
                j = j + 1;
            }
        }
        assert(text_views(r@) =~= excess_plan(self.archive_path@, entries@, self.max_files as nat));
        r
    }

    /// Where the log file goes when rotated at `now_secs`: in the archive
    /// directory, named after the log's stem (`antivirus` when it has
    /// none), `_`, the time and its extension (`log` when it has none).
    pub fn rotation_target(&self, now_secs: u64) -> (r: String)
        ensures
            r@ == joined(
                self.spec_archive_path()@,
                (match file_stem(self.spec_log_file_path()@) {
                    Some(s) => s,
                    None => "antivirus"@,
                }) + "_"@ + decimal(now_secs as nat) + "."@ + (match extension(self.spec_log_file_path()@) {
                    Some(e) => e,
                    None => "log"@,
                }),
            ),
    {
        let stem = match file_stem_of(self.log_file_path.as_str()) {
            Some(s) => s,
            None => owned("antivirus"),
        };
        let ext = match extension_of(self.log_file_path.as_str()) {
            Some(e) => e,
            None => owned("log"),
        };
        let name = Self::rotated_name(stem.as_str(), now_secs, ext.as_str());
        join_path(self.archive_path.as_str(), name.as_str())
    }
}

/// The logger's configuration, audit switch, rotator and per-type counts.
pub struct EventLogger {
    config: LoggingConfig,
    audit_logger: AuditLogger,
    log_rotator: LogRotator,
    event_counters: Vec<(String, u64)>,
}

impl EventLogger {
    /// A logger for the configuration, with auditing on and no events
    /// counted, rotating into `archive_path`.
    pub fn new(config: LoggingConfig, archive_path: String) -> (r: Self)
        ensures
            r.counters().len() == 0,
            r.audit_enabled(),
            r.configuration() == config,
            r.log_rotator().spec_log_file_path()@ == config.log_file_path@,
            r.log_rotator().max_file_size_mb() == config.max_log_file_size_mb,
            r.log_rotator().max_files() == config.max_log_files,
            r.log_rotator().spec_archive_path()@ == archive_path@,
    {
        let log_rotator = LogRotator::new(&config, archive_path);
        EventLogger {
            config,
            audit_logger: AuditLogger::new(true),
            log_rotator,
            event_counters: Vec::new(),
        }
    }

    /// The per-type event counts.
    pub closed spec fn counters(&self) -> Seq<(String, u64)> {
        self.event_counters@
    }

    /// Whether audit events are written.
    pub closed spec fn audit_enabled(&self) -> bool {
        self.audit_logger.spec_is_enabled()
    }

    /// The configuration.
    pub closed spec fn configuration(&self) -> LoggingConfig {
        self.config
    }

    /// The configuration.
    pub fn config(&self) -> (r: &LoggingConfig)
        ensures
            *r == self.configuration(),
    {
        &self.config
    }

    /// The rotator.
    pub fn rotator(&self) -> (r: &LogRotator)
        ensures
            *r == self.log_rotator(),
    {
        &self.log_rotator
    }

    /// The rotator.
    pub closed spec fn log_rotator(&self) -> LogRotator {
        self.log_rotator
    }

    /// The renames that archiving makes among the files of the archive
    /// directory.
    pub fn archive_logs(&self, entries: &[ArchiveEntry]) -> (r: Vec<(String, String)>)
        ensures
            pair_views(r@) == archive_plan(self.log_rotator().spec_archive_path()@, entries@),
    {
        self.log_rotator.archive_old_logs(entries)
    }

    /// The files that cleanup removes from the archive directory: those
    /// created more than `days_to_keep` days before `now_secs`.
    pub fn cleanup_old_logs(&self, entries: &[ArchiveEntry], now_secs: u64, days_to_keep: u32) -> (r: Vec<String>)
        requires
            now_secs >= days_to_keep as u64 * SECS_PER_DAY,
        ensures
            text_views(r@) == expired_plan(
                self.log_rotator().spec_archive_path()@,
                entries@,
                (now_secs - days_to_keep as u64 * SECS_PER_DAY) as u64,
            ),
    {
        self.log_rotator.cleanup_old_logs(entries, now_secs, days_to_keep)
    }

    /// The audit logger.
    pub fn audit_logger(&self) -> (r: &AuditLogger)
        ensures
            r.is_enabled() == self.audit_enabled(),
    {
        &self.audit_logger
    }

    /// The number of events counted under `event_type`.
    pub fn event_count(&self, event_type: &str) -> (r: u64)
        ensures
            r == count_of(self.counters(), event_type@),
    {
        let mut i: usize = 0;
        assert(self.event_counters@.skip(0) =~= self.event_counters@);
        while i < self.event_counters.len()
            invariant
                i <= self.event_counters@.len(),
                count_of(self.event_counters@, event_type@) == count_of(self.event_counters@.skip(i as int), event_type@),
            decreases self.event_counters@.len() - i,
        {
            assert(self.event_counters@.skip(i as int).drop_first() =~= self.event_counters@.skip(i + 1));
            if str_eq(self.event_counters[i].0.as_str(), event_type) {
                return self.event_counters[i].1;
            }
            i = i + 1;
        }
        0
    }

    /// Counts one more event of the type, as logging a structured event
    /// does.
    pub fn record_event(&mut self, event_type: &str)
        requires
            count_of(old(self).counters(), event_type@) < u64::MAX,
        ensures
            count_of(final(self).counters(), event_type@) == count_of(old(self).counters(), event_type@) + 1,
            forall|t: Seq<char>| t != event_type@ ==> count_of(final(self).counters(), t) == count_of(old(self).counters(), t),
            counter_keys(final(self).counters()) == keys_after(counter_keys(old(self).counters()), event_type@),
            final(self).audit_enabled() == old(self).audit_enabled(),
    {
        let ghost orig = self.event_counters@;
        let mut i: usize = 0;
        while i < self.event_counters.len()
            invariant
                i <= self.event_counters@.len(),
                self.event_counters@ == orig,
                orig == old(self).event_counters@,
                self.audit_logger == old(self).audit_logger,
                count_of(orig, event_type@) < u64::MAX,
                forall|j: int| 0 <= j < i ==> (#[trigger] orig[j]).0@ != event_type@,
            decreases self.event_counters@.len() - i,
        {
            if str_eq(self.event_counters[i].0.as_str(), event_type) {
                proof {
                    lemma_count_update(orig, i as int, event_type@, 0, event_type@);
                }
                let (k, c) = self.event_counters.remove(i);
                self.event_counters.insert(i, (k, c + 1));
                proof {
                    assert(self.event_counters@ =~= orig.update(i as int, (orig[i as int].0, (c + 1) as u64)));
                    assert forall|t: Seq<char>| #![auto] t != event_type@ implies count_of(self.event_counters@, t) == count_of(orig, t) by {
                        lemma_count_update(orig, i as int, event_type@, (c + 1) as u64, t);
                    }
                    lemma_count_update(orig, i as int, event_type@, (c + 1) as u64, event_type@);
                    assert(count_of(self.event_counters@, event_type@) == c + 1);
                    assert(count_of(orig, event_type@) == c);
                    assert(counter_keys(orig)[i as int] == event_type@);
                    assert(counter_keys(self.event_counters@) =~= counter_keys(orig));
                }
                return;
            }
            i = i + 1;
        }
        let key = owned(event_type);
        self.event_counters.push((key, 1));
        proof {
            assert(self.event_counters@ == orig.push((key, 1u64)));
            assert forall|t: Seq<char>| #![auto] t != event_type@ implies count_of(self.event_counters@, t) == count_of(orig, t) by {
                lemma_count_push(orig, key, 1, t);
            }
            lemma_count_push(orig, key, 1, event_type@);
            assert(!counter_keys(orig).contains(event_type@)) by {
                if counter_keys(orig).contains(event_type@) {
                    let j = choose|j: int| 0 <= j < counter_keys(orig).len() && counter_keys(orig)[j] == event_type@;
                    assert(orig[j].0@ == event_type@);
                }
            }
            assert(counter_keys(self.event_counters@) =~= counter_keys(orig).push(event_type@));
        }
    }

    /// Counts the event under its type and gives the level and message with
    /// which it is logged: its severity's level, and its message after
    /// `STRUCTURED EVENT: `.
    pub fn log_structured_event(&mut self, event: &StructuredEvent) -> (r: (TraceLevel, String))
        requires
            count_of(old(self).counters(), event.event_type@) < u64::MAX,
        ensures
            count_of(final(self).counters(), event.event_type@) == count_of(old(self).counters(), event.event_type@) + 1,
            forall|t: Seq<char>| t != event.event_type@ ==> count_of(final(self).counters(), t) == count_of(old(self).counters(), t),
            counter_keys(final(self).counters()) == keys_after(counter_keys(old(self).counters()), event.event_type@),
            final(self).audit_enabled() == old(self).audit_enabled(),
            r.0 == level_of(event.severity),
            r.1@ == "STRUCTURED EVENT: "@ + event.message@,
    {
        self.record_event(event.event_type.as_str());
        let mut m = owned("STRUCTURED EVENT: ");
        m.append(event.message.as_str());
        (event.severity.trace_level(), m)
    }

    /// The message with which an audit event is logged, if auditing is on.
    pub fn log_audit_event(&self, event: &AuditEvent) -> (r: Option<String>)
        ensures
            r is Some <==> self.audit_enabled(),
            r matches Some(m) ==> m@ == "AUDIT EVENT: "@ + event.user@ + " performed "@
                + event.action@ + " on "@ + event.resource@ + " with result "@
                + audit_result_name(event.result),
    {
        self.audit_logger.log_audit_event(event)
    }

    /// The per-type event counts.
    pub fn get_event_statistics(&self) -> (r: Vec<(String, u64)>)
        ensures
            counter_views(r@) == counter_views(self.counters()),
            forall|t: Seq<char>| count_of(r@, t) == count_of(self.counters(), t),
    {
        let mut r: Vec<(String, u64)> = Vec::new();
        let n = self.event_counters.len();
        for i in 0..n
            invariant
                n == self.event_counters@.len(),
                r@.len() == i,
                forall|j: int| 0 <= j < i ==> (#[trigger] r@[j]).0@ == self.event_counters@[j].0@ && r@[j].1 == self.event_counters@[j].1,
        {
            let (k, c) = &self.event_counters[i];
            r.push((k.clone(), *c));
        }
        proof {
            assert forall|t: Seq<char>| #![auto] count_of(r@, t) == count_of(self.event_counters@, t) by {
                lemma_count_same(r@, self.event_counters@, t);
            }
            assert(counter_views(r@) =~= counter_views(self.event_counters@));
        }
        r
    }
}

proof fn lemma_count_same(a: Seq<(String, u64)>, b: Seq<(String, u64)>, u: Seq<char>)
    requires
        a.len() == b.len(),
        forall|j: int| 0 <= j < a.len() ==> (#[trigger] a[j]).0@ == b[j].0@ && a[j].1 == b[j].1,
    ensures
        count_of(a, u) == count_of(b, u),
    decreases a.len(),
{
    if a.len() > 0 {
        assert forall|j: int| 0 <= j < a.drop_first().len() implies (#[trigger] a.drop_first()[j]).0@ == b.drop_first()[j].0@
            && a.drop_first()[j].1 == b.drop_first()[j].1 by {
            assert(a.drop_first()[j] == a[j + 1]);
            assert(b.drop_first()[j] == b[j + 1]);
        }
        lemma_count_same(a.drop_first(), b.drop_first(), u);
        assert(a[0].0@ == b[0].0@);
    }
}

proof fn lemma_count_update(s: Seq<(String, u64)>, i: int, t: Seq<char>, v: u64, u: Seq<char>)
    requires
        0 <= i < s.len(),
        s[i].0@ == t,
        forall|j: int| 0 <= j < i ==> (#[trigger] s[j]).0@ != t,
    ensures
        count_of(s.update(i, (s[i].0, v)), u) == (if u == t { v as int } else { count_of(s, u) }),
        count_of(s, t) == s[i].1,
    decreases s.len(),
{
    let s1 = s.update(i, (s[i].0, v));
    if i > 0 {
        let s2 = s.drop_first();
        assert forall|j: int| 0 <= j < i - 1 implies (#[trigger] s2[j]).0@ != t by {
            assert(s2[j] == s[j + 1]);
        }
        assert(s[0].0@ != t);
        lemma_count_update(s2, i - 1, t, v, u);
        assert(s1.drop_first() =~= s2.update(i - 1, (s2[i - 1].0, v)));
        assert(s1[0] == s[0]);
    } else {
        assert(s1.drop_first() =~= s.drop_first());
    }
}

proof fn lemma_count_push(s: Seq<(String, u64)>, k: String, v: u64, u: Seq<char>)
    requires
        forall|j: int| 0 <= j < s.len() ==> (#[trigger] s[j]).0@ != k@,
    ensures
        count_of(s.push((k, v)), u) == (if u == k@ { v as int } else { count_of(s, u) }),
        count_of(s, k@) == 0,
    decreases s.len(),
{
    if s.len() > 0 {
        let s2 = s.drop_first();
        assert forall|j: int| 0 <= j < s2.len() implies (#[trigger] s2[j]).0@ != k@ by {
            assert(s2[j] == s[j + 1]);
        }
        lemma_count_push(s2, k, v, u);
        assert(s.push((k, v)).drop_first() =~= s2.push((k, v)));
        assert(s.push((k, v))[0] == s[0]);
    } else {
        assert(s.push((k, v)).drop_first() =~= Seq::<(String, u64)>::empty());
        assert(s.push((k, v))[0] == (k, v));
        assert(count_of(s.push((k, v)).drop_first(), u) == 0);
        assert(count_of(s, u) == 0);
    }
}

/// What `serde_json::Value::String` gives for a text.
pub uninterp spec fn json_text_of(s: Seq<char>) -> serde_json::Value;

/// What `serde_json::Value::Bool` gives for a flag.
pub uninterp spec fn json_flag_of(b: bool) -> serde_json::Value;

/// What `serde_json::Value::from` gives for an optional text: the text as
/// a JSON string, or null.
pub uninterp spec fn json_opt_text_of(s: Option<Seq<char>>) -> serde_json::Value;

/// What `serde_json::Value::from` gives for an optional JSON value: the
/// value itself, or null.
pub uninterp spec fn json_opt_of(v: Option<serde_json::Value>) -> serde_json::Value;

/// What `serde_json::Value::Object` gives for fields collected into a
/// `serde_json::Map`.
pub uninterp spec fn json_object_of(fields: Seq<(Seq<char>, serde_json::Value)>) -> serde_json::Value;

/// The fields as key text and value.
pub open spec fn field_views(fields: Seq<(String, serde_json::Value)>) -> Seq<(Seq<char>, serde_json::Value)> {
    Seq::new(fields.len(), |i: int| (fields[i].0@, fields[i].1))
}

/// `serde_json::Value::String` holding the text. The value is named by the
/// text alone; nothing else is claimed of it.
#[verifier::external_body]
pub(crate) fn json_string(s: &str) -> (r: serde_json::Value)
    ensures
        r == json_text_of(s@),
{
    serde_json::Value::String(s.to_string())
}

/// `serde_json::Value::Bool`. The value is named by the flag alone.
#[verifier::external_body]
pub(crate) fn json_bool(b: bool) -> (r: serde_json::Value)
    ensures
        r == json_flag_of(b),
{
    serde_json::Value::Bool(b)
}

/// `serde_json::Value::from` of an optional text (`From<Option<T>>`, which
/// gives `Null` for `None` and the converted text otherwise). The value is
/// named by the argument alone.
#[verifier::external_body]
pub(crate) fn json_opt_text(s: Option<&str>) -> (r: serde_json::Value)
    ensures
        r == json_opt_text_of(
            match s {
                Some(t) => Some(t@),
                None => None,
            },
        ),
{
    serde_json::Value::from(s)
}

/// `serde_json::Value::from` of an optional JSON value (`From<Option<T>>`:
/// `Null` for `None`, the value itself otherwise). The value is named by
/// the argument alone.
#[verifier::external_body]
pub(crate) fn json_opt(v: Option<serde_json::Value>) -> (r: serde_json::Value)
    ensures
        r == json_opt_of(v),
{
    serde_json::Value::from(v)
}

/// `serde_json::Value::Object` of the fields collected into a
/// `serde_json::Map`. Without the crate's `preserve_order` feature the map
/// is a `BTreeMap`: it holds the fields sorted by key, and of fields with
/// equal keys the last one. The value is named by the fields alone.
#[verifier::external_body]
pub(crate) fn json_object(fields: Vec<(String, serde_json::Value)>) -> (r: serde_json::Value)
    ensures
        r == json_object_of(field_views(fields@)),
{
    serde_json::Value::Object(fields.into_iter().collect())
}

/// The JSON object of string fields, one per detail.
pub open spec fn details_json(details: Seq<(String, String)>) -> serde_json::Value {
    json_object_of(Seq::new(details.len(), |i: int| (details[i].0@, json_text_of(details[i].1@))))
}

/// A JSON object of string fields, one per detail, in order.
fn json_details(details: &Vec<(String, String)>) -> (r: serde_json::Value)
    ensures
        r == details_json(details@),
{
    let mut fields: Vec<(String, serde_json::Value)> = Vec::new();
    let n = details.len();
    for i in 0..n
        invariant
            n == details@.len(),
            field_views(fields@) == Seq::new(i as nat, |j: int| (details@[j].0@, json_text_of(details@[j].1@))),
    {
        let (k, v) = &details[i];
        let ghost before = fields@;
        assert(field_views(before).len() == before.len());
        assert(before.len() == i);
        let key = k.clone();
        let value = json_string(v.as_str());
        assert(key@ == details@[i as int].0@);
        assert(value == json_text_of(details@[i as int].1@));
        fields.push((key, value));
        assert(field_views(fields@) =~= Seq::new((i + 1) as nat, |j: int| (details@[j].0@, json_text_of(details@[j].1@)))) by {
            assert forall|j: int| 0 <= j < i implies #[trigger] field_views(fields@)[j] == (details@[j].0@, json_text_of(details@[j].1@)) by {
                assert(fields@[j] == before[j]);
                assert(field_views(before)[j] == (details@[j].0@, json_text_of(details@[j].1@)));
            }
            assert(fields@[i as int] == (key, value));
        }
    }
    assert(Seq::new(n as nat, |j: int| (details@[j].0@, json_text_of(details@[j].1@))) =~= Seq::new(details@.len(), |j: int| (details@[j].0@, json_text_of(details@[j].1@))));
    json_object(fields)
}

/// The details of a scan event: the scan's identifier and the given
/// details (null when there are none).
pub open spec fn scan_details(scan_id: ScanId, details: Option<serde_json::Value>) -> serde_json::Value {
    json_object_of(seq![("scan_id"@, json_text_of(uuid_text(scan_id))), ("additional_details"@, json_opt_of(details))])
}

/// The details of a threat event: the threat's identifier, name, type,
/// file, hash and detection method as text, and its additional
/// information as an object.
pub open spec fn threat_details(t: ThreatInfo) -> serde_json::Value {
    json_object_of(
        seq![
            ("threat_id"@, json_text_of(uuid_text(t.id))),
            ("threat_name"@, json_text_of(t.name@)),
            ("threat_type"@, json_text_of(threat_type_name(t.threat_type))),
            ("file_path"@, json_text_of(t.file_path@)),
            ("file_hash"@, json_text_of(t.file_hash@)),
            ("detection_method"@, json_text_of(detection_method_name(t.detection_method))),
            ("additional_info"@, details_json(t.additional_info@)),
        ],
    )
}

/// The details of a quarantine event: the operation, the entry, the file,
/// whether it succeeded, and the failure's text (null on success).
pub open spec fn quarantine_details(
    operation: QuarantineOperation,
    quarantine_id: QuarantineId,
    file_path: Seq<char>,
    error: Option<Seq<char>>,
) -> serde_json::Value {
    json_object_of(
        seq![
            ("operation"@, json_text_of(operation_name(operation))),
            ("quarantine_id"@, json_text_of(uuid_text(quarantine_id))),
            ("file_path"@, json_text_of(file_path)),
            ("success"@, json_flag_of(error is None)),
            ("error"@, json_opt_text_of(error)),
        ],
    )
}

/// The counts after one more event of type `t`: that count up by one, the
/// others as they were.
pub open spec fn counted_once(before: Seq<(String, u64)>, after: Seq<(String, u64)>, t: Seq<char>) -> bool {
    &&& count_of(after, t) == count_of(before, t) + 1
    &&& forall|u: Seq<char>| u != t ==> count_of(after, u) == count_of(before, u)
}

/// A new event of the given type, severity, source and message, with no
/// user, correlation or session.
pub open spec fn new_event(e: StructuredEvent, event_type: Seq<char>, severity: EventSeverity, source: Seq<char>, message: Seq<char>) -> bool {
    &&& hyphenated_uuid(e.event_id@)
    &&& e.event_type@ == event_type
    &&& e.severity == severity
    &&& e.source@ == source
    &&& e.message@ == message
    &&& e.correlation_id is None
    &&& e.session_id is None
}

/// Builds a security monitor's event of the given type, severity and
/// message, for the user and with the details when given, and logs it.
/// The event is given back with the level and message it is logged with.
pub fn log_structured_security_event(
    event_logger: &mut EventLogger,
    event_type: &str,
    severity: EventSeverity,
    message: &str,
    user: Option<&str>,
    details: Option<serde_json::Value>,
) -> (r: (StructuredEvent, TraceLevel, String))
    requires
        count_of(old(event_logger).counters(), event_type@) < u64::MAX,
    ensures
        new_event(r.0, event_type@, severity, "security_monitor"@, message@),
        match user {
            Some(u) => r.0.user matches Some(x) && x@ == u@,
            None => r.0.user is None,
        },
        r.0.details == details,
        counted_once(old(event_logger).counters(), final(event_logger).counters(), event_type@),
        final(event_logger).audit_enabled() == old(event_logger).audit_enabled(),
        r.1 == level_of(severity),
        r.2@ == "STRUCTURED EVENT: "@ + message@,
{
    let mut event = StructuredEvent::new(event_type, severity, "security_monitor", message);
    if let Some(u) = user {
        event = event.with_user(u);
    }
    if let Some(d) = details {
        event = event.with_details(d);
    }
    let (level, m) = event_logger.log_structured_event(&event);
    (event, level, m)
}

/// Builds the scan engine's event of the given type and message for the
/// scan, its details holding the scan's identifier and the given details,
/// and logs it at medium severity.
pub fn log_structured_scan_event(
    event_logger: &mut EventLogger,
    scan_id: ScanId,
    event_type: &str,
    message: &str,
    details: Option<serde_json::Value>,
) -> (r: (StructuredEvent, TraceLevel, String))
    requires
        count_of(old(event_logger).counters(), event_type@) < u64::MAX,
    ensures
        new_event(r.0, event_type@, EventSeverity::Medium, "scan_engine"@, message@),
        r.0.user is None,
        r.0.details == Some(scan_details(scan_id, details)),
        counted_once(old(event_logger).counters(), final(event_logger).counters(), event_type@),
        final(event_logger).audit_enabled() == old(event_logger).audit_enabled(),
        r.1 == level_of(EventSeverity::Medium),
        r.2@ == "STRUCTURED EVENT: "@ + message@,
{
    let mut fields: Vec<(String, serde_json::Value)> = Vec::new();
    let id = uuid_to_text(scan_id);
    fields.push((owned("scan_id"), json_string(id.as_str())));
    let ghost given = details;
    fields.push((owned("additional_details"), json_opt(details)));
    assert(field_views(fields@) =~= seq![("scan_id"@, json_text_of(uuid_text(scan_id))), ("additional_details"@, json_opt_of(given))]);
    let event = StructuredEvent::new(event_type, EventSeverity::Medium, "scan_engine", message).with_details(
        json_object(fields),
    );
    let (level, m) = event_logger.log_structured_event(&event);
    (event, level, m)
}

/// Builds the threat detector's event for a detected threat, at the
/// threat's severity, its details holding the threat's identity, file and
/// detection, and logs it.
pub fn log_structured_threat_event(event_logger: &mut EventLogger, threat_info: &ThreatInfo) -> (r: (
    StructuredEvent,
    TraceLevel,
    String,
))
    requires
        count_of(old(event_logger).counters(), "threat_detection"@) < u64::MAX,
    ensures
        new_event(
            r.0,
            "threat_detection"@,
            threat_event_severity(threat_info.severity),
            "threat_detector"@,
            "Threat detected: "@ + threat_info.name@ + " in "@ + threat_info.file_path@,
        ),
        r.0.user is None,
        r.0.details == Some(threat_details(*threat_info)),
        counted_once(old(event_logger).counters(), final(event_logger).counters(), "threat_detection"@),
        final(event_logger).audit_enabled() == old(event_logger).audit_enabled(),
        r.1 == level_of(threat_event_severity(threat_info.severity)),
        r.2@ == "STRUCTURED EVENT: "@ + "Threat detected: "@ + threat_info.name@ + " in "@ + threat_info.file_path@,
{
    let severity = EventSeverity::from_threat(threat_info.severity);
    let mut fields: Vec<(String, serde_json::Value)> = Vec::new();
    let id = uuid_to_text(threat_info.id);
    fields.push((owned("threat_id"), json_string(id.as_str())));
    fields.push((owned("threat_name"), json_string(threat_info.name.as_str())));
    fields.push((owned("threat_type"), json_string(threat_info.threat_type.name())));
    fields.push((owned("file_path"), json_string(threat_info.file_path.as_str())));
    fields.push((owned("file_hash"), json_string(threat_info.file_hash.as_str())));
    fields.push((owned("detection_method"), json_string(threat_info.detection_method.name())));
    fields.push((owned("additional_info"), json_details(&threat_info.additional_info)));
    assert(field_views(fields@) =~= seq![
        ("threat_id"@, json_text_of(uuid_text(threat_info.id))),
        ("threat_name"@, json_text_of(threat_info.name@)),
        ("threat_type"@, json_text_of(threat_type_name(threat_info.threat_type))),
        ("file_path"@, json_text_of(threat_info.file_path@)),
        ("file_hash"@, json_text_of(threat_info.file_hash@)),
        ("detection_method"@, json_text_of(detection_method_name(threat_info.detection_method))),
        ("additional_info"@, details_json(threat_info.additional_info@)),
    ]);
    let mut message = owned("Threat detected: ");
    message.append(threat_info.name.as_str());
    message.append(" in ");
    message.append(threat_info.file_path.as_str());
    let event = StructuredEvent::new("threat_detection", severity, "threat_detector", message.as_str()).with_details(
        json_object(fields),
    );
    proof {
        reveal_strlit("threat_detection");
    }
    let (level, m) = event_logger.log_structured_event(&event);
    (event, level, m)
}

/// Builds the quarantine manager's event for an operation on `file_path`
/// that succeeded (`error` is `None`) or failed with the rendered `error`,
/// its details holding the operation, the entry and the outcome, and logs
/// it.
pub fn log_structured_quarantine_event(
    event_logger: &mut EventLogger,
    operation: QuarantineOperation,
    quarantine_id: QuarantineId,
    file_path: &str,
    error: Option<&str>,
) -> (r: (StructuredEvent, TraceLevel, String))
    requires
        count_of(old(event_logger).counters(), "quarantine_operation"@) < u64::MAX,
    ensures
        r.0.user is None,
        r.0.details == Some(quarantine_details(operation, quarantine_id, file_path@, match error {
            Some(e) => Some(e@),
            None => None,
        })),
        match error {
            None => new_event(r.0, "quarantine_operation"@, EventSeverity::Medium, "quarantine_manager"@,
                "Quarantine operation "@ + operation_name(operation) + " successful for "@ + file_path@),
            Some(e) => new_event(r.0, "quarantine_operation"@, EventSeverity::High, "quarantine_manager"@,
                "Quarantine operation "@ + operation_name(operation) + " failed for "@ + file_path@ + ": "@ + e@),
        },
        counted_once(old(event_logger).counters(), final(event_logger).counters(), "quarantine_operation"@),
        final(event_logger).audit_enabled() == old(event_logger).audit_enabled(),
        r.1 == level_of(r.0.severity),
        r.2@ == "STRUCTURED EVENT: "@ + r.0.message@,
{
    let (severity, message) = operation.outcome_event(file_path, error);
    let mut fields: Vec<(String, serde_json::Value)> = Vec::new();
    fields.push((owned("operation"), json_string(operation.name())));
    let id = uuid_to_text(quarantine_id);
    fields.push((owned("quarantine_id"), json_string(id.as_str())));
    fields.push((owned("file_path"), json_string(file_path)));
    fields.push((owned("success"), json_bool(error.is_none())));
    fields.push((owned("error"), json_opt_text(error)));
    let ghost err_view: Option<Seq<char>> = match error {
        Some(e) => Some(e@),
        None => None,
    };
    assert(err_view is None <==> error is None);
    assert(field_views(fields@) =~= seq![
        ("operation"@, json_text_of(operation_name(operation))),
        ("quarantine_id"@, json_text_of(uuid_text(quarantine_id))),
        ("file_path"@, json_text_of(file_path@)),
        ("success"@, json_flag_of(err_view is None)),
        ("error"@, json_opt_text_of(err_view)),
    ]);
    let event = StructuredEvent::new("quarantine_operation", severity, "quarantine_manager", message.as_str()).with_details(
        json_object(fields),
    );
    proof {
        reveal_strlit("quarantine_operation");
    }
    let (level, m) = event_logger.log_structured_event(&event);
    (event, level, m)
}

/// Level and message with which a scan event is logged: information,
/// with the event's message after `SCAN EVENT: `.
pub fn log_scan_event(scan_id: ScanId, event: &ScanEvent) -> (r: (TraceLevel, String))
    ensures
        r.0 == TraceLevel::Info,
        r.1@ == "SCAN EVENT: "@ + event.message@,
{
    let mut m = owned("SCAN EVENT: ");
    m.append(event.message.as_str());
    (TraceLevel::Info, m)
}

/// How the logging system is set up: which outputs it writes and at which
/// level.
#[derive(Debug, Clone)]
pub struct LoggingPlan {
    /// The level filter, unless the environment sets one.
    pub level: String,
    /// Whether records also go to the console.
    pub console: bool,
    /// Whether the daily log file holds JSON records (text otherwise).
    pub json_file: bool,
    /// The name of the daily log file in the log directory.
    pub file_name: String,
    /// Whether records also go to the Windows event log.
    pub windows_event_log: bool,
}

/// The outputs that the configuration asks for: the console when enabled,
/// the daily file named after the configured log file (`antivirus.log`
/// when the path has no file name), as JSON when enabled, and the Windows
/// event log when enabled.
pub fn logging_plan(config: &LoggingConfig) -> (r: LoggingPlan)
    ensures
        r.level == config.log_level,
        r.console == config.enable_console_logging,
        r.json_file == config.enable_json_logging,
        r.windows_event_log == config.enable_windows_event_log,
        r.file_name@ == (match file_name(config.log_file_path@) {
            Some(n) => n,
            None => "antivirus.log"@,
        }),
{
    let name = match file_name_of(config.log_file_path.as_str()) {
        Some(n) => n,
        None => owned("antivirus.log"),
    };
    LoggingPlan {
        level: config.log_level.clone(),
        console: config.enable_console_logging,
        json_file: config.enable_json_logging,
        file_name: name,
        windows_event_log: config.enable_windows_event_log,
    }
}

/// Whether setting up logging failed only because a subscriber is already
/// installed, which counts as success.
pub fn already_initialized(error_message: &str) -> (r: bool)
    ensures
        r == seq_contains(error_message@, "global default trace dispatcher has already been set"@),
{
    str_contains(error_message, "global default trace dispatcher has already been set")
}

} // verus!
