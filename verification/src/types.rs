//! The threat model: threats, scan results, quarantine entries, system
//! status and the engine-wide settings types.
use vstd::prelude::*;
use crate::clock::{new_id, now_millis};
use crate::error::AntivirusError;
use crate::pairs::{clone_pairs, insert_pair, lookup};
use crate::paths::{file_name, file_name_of};
use crate::text::{chars_of, decimal, digit_char, is_hex_digit, lowercase, owned, push_char, push_decimal, to_lowercase, trim, trim_str};
use vstd::string::StringExecFns;

verus! {

/// Identifier of a threat (a UUID as its 128-bit value).
pub type ThreatId = u128;

/// Identifier of a scan.
pub type ScanId = u128;

/// Identifier of a quarantine entry.
pub type QuarantineId = u128;

/// Identifier of a sandbox.
pub type SandboxId = u128;

/// Identifier of a scan job.
pub type ScanJobId = u128;

/// Milliseconds since the Unix epoch, UTC.
pub type Timestamp = i64;

/// Types of threats that can be detected
#[derive(Debug, Clone, Copy, PartialEq, Eq, Hash, Structural)]
pub enum ThreatType {
    Virus,
    Trojan,
    Rootkit,
    Spyware,
    Adware,
    Ransomware,
    Suspicious,
    Unknown,
}

/// Severity levels for threats
#[derive(Debug, Clone, Copy, PartialEq, Eq, Hash, Structural)]
pub enum ThreatSeverity {
    Low,
    Medium,
    High,
    Critical,
}

/// Numeric rank of a severity: Low is 1, Critical is 4.
pub open spec fn severity_rank(s: ThreatSeverity) -> u8 {
    match s {
        ThreatSeverity::Low => 1,
        ThreatSeverity::Medium => 2,
        ThreatSeverity::High => 3,
        ThreatSeverity::Critical => 4,
    }
}

/// The severity with a given rank, if any.
pub open spec fn severity_of(value: u8) -> Option<ThreatSeverity> {
    if value == 1 {
        Some(ThreatSeverity::Low)
    } else if value == 2 {
        Some(ThreatSeverity::Medium)
    } else if value == 3 {
        Some(ThreatSeverity::High)
    } else if value == 4 {
        Some(ThreatSeverity::Critical)
    } else {
        None
    }
}

/// Severities are ordered Low < Medium < High < Critical by their numbers,
/// different severities have different numbers, and reading a severity's
/// number back gives that severity.
pub proof fn lemma_severity_order(a: ThreatSeverity, b: ThreatSeverity)
    ensures
        severity_of(severity_rank(a)) == Some(a),
        severity_rank(a) == severity_rank(b) ==> a == b,
        1 <= severity_rank(a) <= 4,
        severity_rank(ThreatSeverity::Low) < severity_rank(ThreatSeverity::Medium),
        severity_rank(ThreatSeverity::Medium) < severity_rank(ThreatSeverity::High),
        severity_rank(ThreatSeverity::High) < severity_rank(ThreatSeverity::Critical),
{
}

/// Every number that names a severity is that severity's number.
pub proof fn lemma_severity_numbers(value: u8)
    ensures
        severity_of(value) matches Some(s) ==> severity_rank(s) == value,
        severity_of(value) is Some <==> 1 <= value <= 4,
{
}

impl ThreatSeverity {
    /// Get numeric value for comparison
    pub fn to_numeric(&self) -> (r: u8)
        ensures
            r == severity_rank(*self),
    {
        match self {
            ThreatSeverity::Low => 1,
            ThreatSeverity::Medium => 2,
            ThreatSeverity::High => 3,
            ThreatSeverity::Critical => 4,
        }
    }

    /// Create from numeric value
    pub fn from_numeric(value: u8) -> (r: Option<ThreatSeverity>)
        ensures
            r == severity_of(value),
    {
        match value {
            1 => Some(ThreatSeverity::Low),
            2 => Some(ThreatSeverity::Medium),
            3 => Some(ThreatSeverity::High),
            4 => Some(ThreatSeverity::Critical),
            _ => None,
        }
    }

    /// Get color representation for UI
    pub fn get_color_code(&self) -> (r: &'static str)
        ensures
            r@ == (match *self {
                ThreatSeverity::Low => "#28a745"@,
                ThreatSeverity::Medium => "#ffc107"@,
                ThreatSeverity::High => "#fd7e14"@,
                ThreatSeverity::Critical => "#dc3545"@,
            }),
    {
        match self {
            ThreatSeverity::Low => "#28a745",
            ThreatSeverity::Medium => "#ffc107",
            ThreatSeverity::High => "#fd7e14",
            ThreatSeverity::Critical => "#dc3545",
        }
    }
}


/// Methods used to detect threats
#[derive(Debug, Clone, Copy, PartialEq, Eq, Hash, Structural)]
pub enum DetectionMethod {
    Signature,
    Heuristic,
    MachineLearning,
    Behavioral,
    Sandbox,
    Static,
    Dynamic,
}

/// The name of a threat type, as its variant is written.
pub open spec fn threat_type_name(t: ThreatType) -> Seq<char> {
    match t {
        ThreatType::Virus => "Virus"@,
        ThreatType::Trojan => "Trojan"@,
        ThreatType::Rootkit => "Rootkit"@,
        ThreatType::Spyware => "Spyware"@,
        ThreatType::Adware => "Adware"@,
        ThreatType::Ransomware => "Ransomware"@,
        ThreatType::Suspicious => "Suspicious"@,
        ThreatType::Unknown => "Unknown"@,
    }
}

impl ThreatType {
    /// The name of the variant.
    pub fn name(&self) -> (r: &'static str)
        ensures
            r@ == threat_type_name(*self),
    {
        match self {
            ThreatType::Virus => "Virus",
            ThreatType::Trojan => "Trojan",
            ThreatType::Rootkit => "Rootkit",
            ThreatType::Spyware => "Spyware",
            ThreatType::Adware => "Adware",
            ThreatType::Ransomware => "Ransomware",
            ThreatType::Suspicious => "Suspicious",
            ThreatType::Unknown => "Unknown",
        }
    }
}

/// The name of a detection method, as its variant is written.
pub open spec fn detection_method_name(t: DetectionMethod) -> Seq<char> {
    match t {
        DetectionMethod::Signature => "Signature"@,
        DetectionMethod::Heuristic => "Heuristic"@,
        DetectionMethod::MachineLearning => "MachineLearning"@,
        DetectionMethod::Behavioral => "Behavioral"@,
        DetectionMethod::Sandbox => "Sandbox"@,
        DetectionMethod::Static => "Static"@,
        DetectionMethod::Dynamic => "Dynamic"@,
    }
}

impl DetectionMethod {
    /// The name of the variant.
    pub fn name(&self) -> (r: &'static str)
        ensures
            r@ == detection_method_name(*self),
    {
        match self {
            DetectionMethod::Signature => "Signature",
            DetectionMethod::Heuristic => "Heuristic",
            DetectionMethod::MachineLearning => "MachineLearning",
            DetectionMethod::Behavioral => "Behavioral",
            DetectionMethod::Sandbox => "Sandbox",
            DetectionMethod::Static => "Static",
            DetectionMethod::Dynamic => "Dynamic",
        }
    }
}

/// Actions that can be taken on threats
#[derive(Debug, Clone, Copy, PartialEq, Eq, Structural)]
pub enum ThreatAction {
    Ignore,
    Quarantine,
    Delete,
    Clean,
    Block,
}

/// Result of a threat action
#[derive(Debug, Clone)]
pub struct ThreatActionResult {
    pub threat_id: ThreatId,
    pub action: ThreatAction,
    pub success: bool,
    pub message: String,
    pub timestamp: Timestamp,
}

/// Threat information structure
#[derive(Debug)]
pub struct ThreatInfo {
    pub id: ThreatId,
    pub name: String,
    pub threat_type: ThreatType,
    pub severity: ThreatSeverity,
    pub file_path: String,
    pub file_hash: String,
    pub detection_method: DetectionMethod,
    pub timestamp: Timestamp,
    pub additional_info: Vec<(String, String)>,
}

impl Clone for ThreatInfo {
    fn clone(&self) -> (r: Self)
        ensures
            same_threat(r, *self),
    {
        ThreatInfo {
            id: self.id,
            name: self.name.clone(),
            threat_type: self.threat_type,
            severity: self.severity,
            file_path: self.file_path.clone(),
            file_hash: self.file_hash.clone(),
            detection_method: self.detection_method,
            timestamp: self.timestamp,
            additional_info: clone_pairs(self.additional_info.as_slice()),
        }
    }
}

/// A SHA-256 digest written in hexadecimal: 64 hex digits.
pub open spec fn valid_hash(h: Seq<char>) -> bool {
    h.len() == 64 && forall|i: int| 0 <= i < h.len() ==> is_hex_digit(#[trigger] h[i])
}

/// The two threats hold the same values.
pub open spec fn same_threat(a: ThreatInfo, b: ThreatInfo) -> bool {
    &&& a.id == b.id
    &&& a.name@ == b.name@
    &&& a.threat_type == b.threat_type
    &&& a.severity == b.severity
    &&& a.file_path@ == b.file_path@
    &&& a.file_hash@ == b.file_hash@
    &&& a.detection_method == b.detection_method
    &&& a.timestamp == b.timestamp
    &&& a.additional_info@ == b.additional_info@
}

/// Risk score of a threat: the severity's base value plus the type's
/// modifier, kept within 0..=100.
pub open spec fn risk_score(severity: ThreatSeverity, threat_type: ThreatType) -> int {
    let base: int = match severity {
        ThreatSeverity::Low => 25,
        ThreatSeverity::Medium => 50,
        ThreatSeverity::High => 75,
        ThreatSeverity::Critical => 100,
    };
    let modifier: int = match threat_type {
        ThreatType::Ransomware => 20,
        ThreatType::Rootkit => 15,
        ThreatType::Trojan => 10,
        ThreatType::Virus => 5,
        ThreatType::Spyware => 5,
        ThreatType::Adware => -10,
        ThreatType::Suspicious => -5,
        ThreatType::Unknown => 0,
    };
    let sum = base + modifier;
    if sum < 0 {
        0
    } else if sum > 100 {
        100
    } else {
        sum
    }
}

/// The message with which a threat's values are refused, if they are.
pub open spec fn threat_error(name: Seq<char>, hash: Seq<char>) -> Option<Seq<char>> {
    if trim(name).len() == 0 {
        Some("Threat name cannot be empty"@)
    } else if !valid_hash(hash) {
        Some("Invalid file hash format"@)
    } else {
        None
    }
}

/// A threat with the given identifier and time holds the trimmed name, the
/// lowercased hash, the other values as given and no additional information.
pub open spec fn threat_built(
    t: ThreatInfo,
    id: ThreatId,
    now: Timestamp,
    name: Seq<char>,
    threat_type: ThreatType,
    severity: ThreatSeverity,
    file_path: Seq<char>,
    file_hash: Seq<char>,
    detection_method: DetectionMethod,
) -> bool {
    &&& t.id == id
    &&& t.name@ == trim(name)
    &&& t.threat_type == threat_type
    &&& t.severity == severity
    &&& t.file_path@ == file_path
    &&& t.file_hash@ == lowercase(file_hash)
    &&& t.detection_method == detection_method
    &&& t.timestamp == now
    &&& t.additional_info@.len() == 0
}

impl ThreatInfo {
    /// Create a new ThreatInfo with validation: the name, trimmed, must not be
    /// empty and the hash must be 64 hex digits. A fresh identifier and the
    /// current time are taken.
    pub fn new(
        name: String,
        threat_type: ThreatType,
        severity: ThreatSeverity,
        file_path: String,
        file_hash: String,
        detection_method: DetectionMethod,
    ) -> (r: Result<ThreatInfo, AntivirusError>)
        ensures
            r is Ok <==> threat_error(name@, file_hash@) is None,
            r is Err ==> (r matches Err(AntivirusError::Internal(m)) && threat_error(name@, file_hash@)
                == Some(m@)),
            r matches Ok(t) ==> (exists|id: ThreatId, now: Timestamp|
                threat_built(t, id, now, name@, threat_type, severity, file_path@, file_hash@,
                    detection_method)),
    {
        let id = new_id();
        let now = now_millis();
        Self::create(id, now, name, threat_type, severity, file_path, file_hash, detection_method)
    }

    /// Builds a threat from its values, an identifier and a time, with the
    /// validation of `new`.
    pub fn create(
        id: ThreatId,
        now: Timestamp,
        name: String,
        threat_type: ThreatType,
        severity: ThreatSeverity,
        file_path: String,
        file_hash: String,
        detection_method: DetectionMethod,
    ) -> (r: Result<ThreatInfo, AntivirusError>)
        ensures
            r is Ok <==> threat_error(name@, file_hash@) is None,
            r is Err ==> (r matches Err(AntivirusError::Internal(m)) && threat_error(name@, file_hash@)
                == Some(m@)),
            r matches Ok(t) ==> threat_built(t, id, now, name@, threat_type, severity,
                file_path@, file_hash@, detection_method),
    {
        let trimmed = trim_str(name.as_str());
        if trimmed.as_str().is_empty() {
            return Err(AntivirusError::Internal(owned("Threat name cannot be empty")));
        }
        if !Self::is_valid_hash(file_hash.as_str()) {
            return Err(AntivirusError::Internal(owned("Invalid file hash format")));
        }
        let hash = to_lowercase(file_hash.as_str());
        Ok(ThreatInfo {
            id,
            name: trimmed,
            threat_type,
            severity,
            file_path,
            file_hash: hash,
            detection_method,
            timestamp: now,
            additional_info: Vec::new(),
        })
    }

    /// Validate hash format (SHA-256 hex string)
    fn is_valid_hash(hash: &str) -> (r: bool)
        ensures
            r == valid_hash(hash@),
    {
        let v = chars_of(hash);
        if v.len() != 64 {
            return false;
        }
        let mut i: usize = 0;
        while i < v.len()
            invariant
                i <= v@.len(),
                v@ == hash@,
                forall|j: int| 0 <= j < i ==> is_hex_digit(#[trigger] v@[j]),
            decreases v@.len() - i,
        {
            let c = v[i];
            if !(('0' <= c && c <= '9') || ('a' <= c && c <= 'f') || ('A' <= c && c <= 'F')) {
                return false;
            }
            i = i + 1;
        }
        true
    }

    /// Add additional information; a key already present takes the new value.
    pub fn add_info(&mut self, key: String, value: String)
        ensures
            lookup(final(self).additional_info@, key@) == Some(value@),
            forall|k: Seq<char>| k != key@ ==> lookup(final(self).additional_info@, k)
                == lookup(old(self).additional_info@, k),
            final(self).id == old(self).id,
            final(self).name@ == old(self).name@,
            final(self).threat_type == old(self).threat_type,
            final(self).severity == old(self).severity,
            final(self).file_path@ == old(self).file_path@,
            final(self).file_hash@ == old(self).file_hash@,
            final(self).detection_method == old(self).detection_method,
            final(self).timestamp == old(self).timestamp,
    {
        insert_pair(&mut self.additional_info, key, value);
    }

    /// Get threat risk score based on severity and type
    pub fn get_risk_score(&self) -> (r: u8)
        ensures
            r == risk_score(self.severity, self.threat_type),
    {
        let severity_score: i16 = match self.severity {
            ThreatSeverity::Low => 25,
            ThreatSeverity::Medium => 50,
            ThreatSeverity::High => 75,
            ThreatSeverity::Critical => 100,
        };
        let type_modifier: i16 = match self.threat_type {
            ThreatType::Ransomware => 20,
            ThreatType::Rootkit => 15,
            ThreatType::Trojan => 10,
            ThreatType::Virus => 5,
            ThreatType::Spyware => 5,
            ThreatType::Adware => -10,
            ThreatType::Suspicious => -5,
            ThreatType::Unknown => 0,
        };
        let sum = severity_score + type_modifier;
        if sum < 0 {
            0
        } else if sum > 100 {
            100
        } else {
            sum as u8
        }
    }

    /// Check if threat requires immediate action
    pub fn requires_immediate_action(&self) -> (r: bool)
        ensures
            r == (self.severity == ThreatSeverity::Critical || self.severity
                == ThreatSeverity::High || self.threat_type == ThreatType::Ransomware
                || self.threat_type == ThreatType::Rootkit),
    {
        matches!(self.severity, ThreatSeverity::Critical | ThreatSeverity::High) || matches!(
            self.threat_type,
            ThreatType::Ransomware | ThreatType::Rootkit
        )
    }
}

/// Status of a scan operation
#[derive(Debug, Clone, Copy, PartialEq, Eq, Structural)]
pub enum ScanStatus {
    Running,
    Completed,
    Cancelled,
    Failed,
    Paused,
}

/// Scan error information
#[derive(Debug, Clone)]
pub struct ScanError {
    pub file_path: String,
    pub error_message: String,
    pub timestamp: Timestamp,
}

/// Scan statistics. The average scan time per file is derived from
/// `scan_duration_ms` and `scanned_files` by the caller.
#[derive(Debug, Clone, Copy)]
pub struct ScanStatistics {
    pub total_files: u64,
    pub scanned_files: u64,
    pub skipped_files: u64,
    pub infected_files: u64,
    pub cleaned_files: u64,
    pub quarantined_files: u64,
    pub scan_duration_ms: u64,
}

/// Statistics with every count at zero.
pub open spec fn zero_statistics() -> ScanStatistics {
    ScanStatistics {
        total_files: 0,
        scanned_files: 0,
        skipped_files: 0,
        infected_files: 0,
        cleaned_files: 0,
        quarantined_files: 0,
        scan_duration_ms: 0,
    }
}

impl Default for ScanStatistics {
    fn default() -> (r: Self)
        ensures
            r == zero_statistics(),
    {
        ScanStatistics {
            total_files: 0,
            scanned_files: 0,
            skipped_files: 0,
            infected_files: 0,
            cleaned_files: 0,
            quarantined_files: 0,
            scan_duration_ms: 0,
        }
    }
}

/// Milliseconds from `start` to `end`, or 0 when `end` comes first.
pub open spec fn elapsed_ms(start: Timestamp, end: Timestamp) -> int {
    if end - start < 0 {
        0
    } else {
        end - start
    }
}

/// Scan result information
#[derive(Debug, Clone)]
pub struct ScanResult {
    pub scan_id: ScanId,
    pub start_time: Timestamp,
    pub end_time: Option<Timestamp>,
    pub status: ScanStatus,
    pub scanned_files: u64,
    pub threats_found: Vec<ThreatInfo>,
    pub errors: Vec<ScanError>,
    pub statistics: ScanStatistics,
}

/// The statistics of `new` after they were brought up to date with `r`: the
/// counts of infected and scanned files, and the duration once the scan ended.
pub open spec fn statistics_updated(old_stats: ScanStatistics, r: ScanResult) -> bool {
    &&& r.statistics.infected_files == r.threats_found@.len()
    &&& r.statistics.scanned_files == r.scanned_files
    &&& r.statistics.total_files == old_stats.total_files
    &&& r.statistics.skipped_files == old_stats.skipped_files
    &&& r.statistics.cleaned_files == old_stats.cleaned_files
    &&& r.statistics.quarantined_files == old_stats.quarantined_files
    &&& r.statistics.scan_duration_ms == (match r.end_time {
        Some(end) => elapsed_ms(r.start_time, end),
        None => old_stats.scan_duration_ms as int,
    })
}

/// The threats of `s` whose severity is `severity`, in order.
pub open spec fn with_severity(s: Seq<ThreatInfo>, severity: ThreatSeverity) -> Seq<ThreatInfo>
    decreases s.len(),
{
    if s.len() == 0 {
        Seq::empty()
    } else if s.last().severity == severity {
        with_severity(s.drop_last(), severity).push(s.last())
    } else {
        with_severity(s.drop_last(), severity)
    }
}

impl ScanResult {
    /// Create a new scan result, started now.
    pub fn new(scan_id: ScanId) -> (r: Self)
        ensures
            r.scan_id == scan_id,
            r.end_time is None,
            r.status == ScanStatus::Running,
            r.scanned_files == 0,
            r.threats_found@.len() == 0,
            r.errors@.len() == 0,
            r.statistics == zero_statistics(),
    {
        let now = now_millis();
        Self::started_at(scan_id, now)
    }

    /// A scan result started at `now`.
    pub fn started_at(scan_id: ScanId, now: Timestamp) -> (r: Self)
        ensures
            r.scan_id == scan_id,
            r.start_time == now,
            r.end_time is None,
            r.status == ScanStatus::Running,
            r.scanned_files == 0,
            r.threats_found@.len() == 0,
            r.errors@.len() == 0,
            r.statistics == zero_statistics(),
    {
        ScanResult {
            scan_id,
            start_time: now,
            end_time: None,
            status: ScanStatus::Running,
            scanned_files: 0,
            threats_found: Vec::new(),
            errors: Vec::new(),
            statistics: ScanStatistics::default(),
        }
    }

    /// Mark scan as completed
    pub fn complete(&mut self)
        ensures
            final(self).end_time is Some,
            final(self).status == ScanStatus::Completed,
            final(self).scan_id == old(self).scan_id,
            final(self).start_time == old(self).start_time,
            final(self).scanned_files == old(self).scanned_files,
            final(self).threats_found@ == old(self).threats_found@,
            final(self).errors@ == old(self).errors@,
            statistics_updated(old(self).statistics, *final(self)),
    {
        self.end_time = Some(now_millis());
        self.status = ScanStatus::Completed;
        self.update_statistics();
    }

    /// Mark scan as failed, recording the failure as an error of the
    /// pseudo-path `SCAN_FAILURE`.
    pub fn fail(&mut self, error_message: String)
        ensures
            final(self).end_time is Some,
            final(self).status == ScanStatus::Failed,
            final(self).scan_id == old(self).scan_id,
            final(self).start_time == old(self).start_time,
            final(self).scanned_files == old(self).scanned_files,
            final(self).threats_found@ == old(self).threats_found@,
            final(self).errors@.len() == old(self).errors@.len() + 1,
            final(self).errors@.drop_last() == old(self).errors@,
            final(self).errors@.last().file_path@ == "SCAN_FAILURE"@,
            final(self).errors@.last().error_message@ == error_message@,
            statistics_updated(old(self).statistics, *final(self)),
    {
        self.end_time = Some(now_millis());
        self.status = ScanStatus::Failed;
        let timestamp = now_millis();
        self.errors.push(ScanError { file_path: owned("SCAN_FAILURE"), error_message, timestamp });
        self.update_statistics();
    }

    /// Add a threat to the results
    pub fn add_threat(&mut self, threat: ThreatInfo)
        ensures
            final(self).threats_found@ == old(self).threats_found@.push(threat),
            final(self).scan_id == old(self).scan_id,
            final(self).start_time == old(self).start_time,
            final(self).end_time == old(self).end_time,
            final(self).status == old(self).status,
            final(self).scanned_files == old(self).scanned_files,
            final(self).errors@ == old(self).errors@,
            statistics_updated(old(self).statistics, *final(self)),
    {
        self.threats_found.push(threat);
        self.update_statistics();
    }

    /// Add an error to the results
    pub fn add_error(&mut self, file_path: String, error_message: String)
        ensures
            final(self).errors@.len() == old(self).errors@.len() + 1,
            final(self).errors@.drop_last() == old(self).errors@,
            final(self).errors@.last().file_path == file_path,
            final(self).errors@.last().error_message == error_message,
            final(self).scan_id == old(self).scan_id,
            final(self).start_time == old(self).start_time,
            final(self).end_time == old(self).end_time,
            final(self).status == old(self).status,
            final(self).scanned_files == old(self).scanned_files,
            final(self).threats_found@ == old(self).threats_found@,
            final(self).statistics == old(self).statistics,
    {
        let timestamp = now_millis();
        self.errors.push(ScanError { file_path, error_message, timestamp });
    }

    /// Update internal statistics
    fn update_statistics(&mut self)
        ensures
            final(self).scan_id == old(self).scan_id,
            final(self).start_time == old(self).start_time,
            final(self).end_time == old(self).end_time,
            final(self).status == old(self).status,
            final(self).scanned_files == old(self).scanned_files,
            final(self).threats_found@ == old(self).threats_found@,
            final(self).errors@ == old(self).errors@,
            statistics_updated(old(self).statistics, *final(self)),
    {
        self.statistics.infected_files = self.threats_found.len() as u64;
        self.statistics.scanned_files = self.scanned_files;
        match self.end_time {
            Some(end) => {
                let d: i128 = end as i128 - self.start_time as i128;
                self.statistics.scan_duration_ms = if d < 0 {
                    0
                } else {
                    d as u64
                };
            },
            None => {},
        }
    }

    /// Scan duration in milliseconds, once the scan has ended.
    pub fn get_duration_ms(&self) -> (r: Option<i128>)
        ensures
            r == (match self.end_time {
                Some(end) => Some((end - self.start_time) as i128),
                None => None::<i128>,
            }),
    {
        match self.end_time {
            Some(end) => Some(end as i128 - self.start_time as i128),
            None => None,
        }
    }

    /// Check if scan found any threats
    pub fn has_threats(&self) -> (r: bool)
        ensures
            r == (self.threats_found@.len() > 0),
    {
        self.threats_found.len() > 0
    }

    /// Get threats by severity, in the order they were found.
    pub fn get_threats_by_severity(&self, severity: ThreatSeverity) -> (r: Vec<&ThreatInfo>)
        ensures
            r@.len() == with_severity(self.threats_found@, severity).len(),
            forall|i: int| 0 <= i < r@.len() ==> *r@[i] == with_severity(self.threats_found@, severity)[i],
    {
        let mut r: Vec<&ThreatInfo> = Vec::new();
        let n = self.threats_found.len();
        for i in 0..n
            invariant
                n == self.threats_found@.len(),
                r@.len() == with_severity(self.threats_found@.take(i as int), severity).len(),
                forall|j: int| 0 <= j < r@.len() ==> *r@[j] == with_severity(self.threats_found@.take(i as int), severity)[j],
        {
            assert(self.threats_found@.take(i + 1).drop_last() == self.threats_found@.take(i as int));
            if self.threats_found[i].severity == severity {
                r.push(&self.threats_found[i]);
            }
        }
        assert(self.threats_found@.take(n as int) == self.threats_found@);
        r
    }
}

/// Progress of a running scan. `percentage_complete` holds the IEEE-754
/// single-precision bits of the percentage.
#[derive(Debug, Clone)]
pub struct ScanProgress {
    pub scan_id: ScanId,
    pub current_file: Option<String>,
    pub files_scanned: u64,
    pub total_files: u64,
    pub threats_found: u32,
    pub percentage_complete: u32,
    pub estimated_time_remaining_ms: Option<u64>,
}

/// Types of scans that can be performed
#[derive(Debug, Clone)]
pub enum ScanType {
    Quick,
    Full,
    Custom(Vec<String>),
    Memory,
    Startup,
}

/// Milliseconds in a day.
pub const MS_PER_DAY: i64 = 86_400_000;

/// Milliseconds in an hour.
pub const MS_PER_HOUR: i64 = 3_600_000;

/// Whole units of `unit` milliseconds in `d`, truncated toward zero.
pub open spec fn whole_units(d: int, unit: int) -> int {
    if d >= 0 {
        d / unit
    } else {
        -((-d) / unit)
    }
}

/// Whole days from `then` to `now`, truncated toward zero.
pub open spec fn days_since(then: Timestamp, now: Timestamp) -> int {
    whole_units(now - then, MS_PER_DAY as int)
}

/// Quarantine entry information
#[derive(Debug, Clone)]
pub struct QuarantineEntry {
    pub id: QuarantineId,
    pub original_path: String,
    pub threat_info: ThreatInfo,
    pub quarantine_time: Timestamp,
    pub file_size: u64,
    pub encrypted_path: String,
}

impl QuarantineEntry {
    /// Create a new quarantine entry with a fresh identifier, quarantined now.
    pub fn new(original_path: String, threat_info: ThreatInfo, file_size: u64, encrypted_path: String) -> (r: Self)
        ensures
            r.original_path == original_path,
            r.threat_info == threat_info,
            r.file_size == file_size,
            r.encrypted_path == encrypted_path,
    {
        QuarantineEntry {
            id: new_id(),
            original_path,
            threat_info,
            quarantine_time: now_millis(),
            file_size,
            encrypted_path,
        }
    }

    /// Get age of quarantine entry in whole days
    pub fn age_in_days(&self) -> (r: i64)
        ensures
            exists|now: Timestamp| r == #[trigger] days_since(self.quarantine_time, now),
    {
        self.age_in_days_at(now_millis())
    }

    /// Age in whole days at the time `now`, truncated toward zero.
    pub fn age_in_days_at(&self, now: Timestamp) -> (r: i64)
        ensures
            r == days_since(self.quarantine_time, now),
    {
        let d: i128 = now as i128 - self.quarantine_time as i128;
        if d >= 0 {
            (d / 86_400_000) as i64
        } else {
            let m: i128 = -d;
            (-(m / 86_400_000)) as i64
        }
    }

    /// Get original file name, or `Unknown` when the path names none.
    pub fn get_file_name(&self) -> (r: String)
        ensures
            r@ == (match file_name(self.original_path@) {
                Some(f) => f,
                None => "Unknown"@,
            }),
    {
        match file_name_of(self.original_path.as_str()) {
            Some(f) => f,
            None => owned("Unknown"),
        }
    }

    /// Check if entry should be auto-deleted based on age
    pub fn should_auto_delete(&self, max_age_days: u32) -> (r: bool)
        ensures
            exists|now: Timestamp| r == (#[trigger] days_since(self.quarantine_time, now) > max_age_days),
    {
        self.age_in_days() > max_age_days as i64
    }
}

/// System status information
#[derive(Debug, Clone)]
pub struct SystemStatus {
    pub realtime_protection_enabled: bool,
    pub last_scan_time: Option<Timestamp>,
    pub last_update_time: Option<Timestamp>,
    pub signature_version: String,
    pub engine_version: String,
    pub threats_detected_today: u32,
    pub quarantine_count: u32,
}

/// Updates are due at `now`: never updated, or more than 24 whole hours ago.
pub open spec fn update_due(last: Option<Timestamp>, now: Timestamp) -> bool {
    match last {
        Some(t) => whole_units(now - t, MS_PER_HOUR as int) > 24,
        None => true,
    }
}

/// A scan is due at `now`: never scanned, or more than 7 whole days ago.
pub open spec fn scan_due(last: Option<Timestamp>, now: Timestamp) -> bool {
    match last {
        Some(t) => whole_units(now - t, MS_PER_DAY as int) > 7,
        None => true,
    }
}

/// `a - b`, or 0 when `b` exceeds `a`.
pub open spec fn sat_sub(a: int, b: int) -> int {
    if a >= b {
        a - b
    } else {
        0
    }
}

/// Health score: 100, less 40 without real-time protection, 20 when updates
/// are due, 15 when a scan is due, and 5 per threat today up to 25.
pub open spec fn health_score(realtime: bool, update: bool, scan: bool, threats: u32) -> int {
    let s1 = if !realtime { sat_sub(100, 40) } else { 100 };
    let s2 = if update { sat_sub(s1, 20) } else { s1 };
    let s3 = if scan { sat_sub(s2, 15) } else { s2 };
    let penalty: int = if threats * 5 < 25 { threats * 5 } else { 25 };
    if threats > 0 { sat_sub(s3, penalty) } else { s3 }
}

/// The label of a health score.
pub open spec fn health_label(score: int) -> Seq<char> {
    if 90 <= score {
        "Excellent"@
    } else if 70 <= score {
        "Good"@
    } else if 50 <= score {
        "Fair"@
    } else if 30 <= score {
        "Poor"@
    } else {
        "Critical"@
    }
}

/// Whole units of `unit` milliseconds from `then` to `now`.
fn whole_units_between(then: Timestamp, now: Timestamp, unit: i64) -> (r: i128)
    requires
        unit > 0,
    ensures
        r == whole_units(now - then, unit as int),
{
    let d: i128 = now as i128 - then as i128;
    if d >= 0 {
        d / (unit as i128)
    } else {
        let m: i128 = -d;
        -(m / (unit as i128))
    }
}

impl SystemStatus {
    /// Create a new system status
    pub fn new(engine_version: String, signature_version: String) -> (r: Self)
        ensures
            r.realtime_protection_enabled,
            r.last_scan_time is None,
            r.last_update_time is None,
            r.signature_version == signature_version,
            r.engine_version == engine_version,
            r.threats_detected_today == 0,
            r.quarantine_count == 0,
    {
        SystemStatus {
            realtime_protection_enabled: true,
            last_scan_time: None,
            last_update_time: None,
            signature_version,
            engine_version,
            threats_detected_today: 0,
            quarantine_count: 0,
        }
    }

    /// Check if system needs updates (older than 24 hours)
    pub fn needs_update(&self) -> (r: bool)
        ensures
            self.last_update_time is None ==> r,
            exists|now: Timestamp| r == #[trigger] update_due(self.last_update_time, now),
    {
        self.needs_update_at(now_millis())
    }

    /// Whether updates are due at the time `now`.
    pub fn needs_update_at(&self, now: Timestamp) -> (r: bool)
        ensures
            r == update_due(self.last_update_time, now),
    {
        match self.last_update_time {
            Some(t) => whole_units_between(t, now, MS_PER_HOUR) > 24,
            None => true,
        }
    }

    /// Check if system needs scan (older than 7 days)
    pub fn needs_scan(&self) -> (r: bool)
        ensures
            self.last_scan_time is None ==> r,
            exists|now: Timestamp| r == #[trigger] scan_due(self.last_scan_time, now),
    {
        self.needs_scan_at(now_millis())
    }

    /// Whether a scan is due at the time `now`.
    pub fn needs_scan_at(&self, now: Timestamp) -> (r: bool)
        ensures
            r == scan_due(self.last_scan_time, now),
    {
        match self.last_scan_time {
            Some(t) => whole_units_between(t, now, MS_PER_DAY) > 7,
            None => true,
        }
    }

    /// Get protection status as string
    pub fn get_protection_status(&self) -> (r: &'static str)
        ensures
            r@ == (if self.realtime_protection_enabled { "Protected"@ } else { "At Risk"@ }),
    {
        if self.realtime_protection_enabled {
            "Protected"
        } else {
            "At Risk"
        }
    }

    /// Get overall health score (0-100)
    pub fn get_health_score(&self) -> (r: u8)
        ensures
            exists|now: Timestamp| #![trigger update_due(self.last_update_time, now)] r == health_score(self.realtime_protection_enabled,
                update_due(self.last_update_time, now), scan_due(self.last_scan_time, now),
                self.threats_detected_today),
    {
        self.health_score_at(now_millis())
    }

    /// Health score at the time `now`.
    pub fn health_score_at(&self, now: Timestamp) -> (r: u8)
        ensures
            r == health_score(self.realtime_protection_enabled,
                update_due(self.last_update_time, now), scan_due(self.last_scan_time, now),
                self.threats_detected_today),
    {
        let mut score: u8 = 100;
        if !self.realtime_protection_enabled {
            score = score.saturating_sub(40);
        }
        if self.needs_update_at(now) {
            score = score.saturating_sub(20);
        }
        if self.needs_scan_at(now) {
            score = score.saturating_sub(15);
        }
        if self.threats_detected_today > 0 {
            let threat_penalty: u32 = if self.threats_detected_today < 5 {
                self.threats_detected_today * 5
            } else {
                25
            };
            score = score.saturating_sub(threat_penalty as u8);
        }
        score
    }

    /// Get health status as string
    pub fn get_health_status(&self) -> (r: &'static str)
        ensures
            exists|now: Timestamp| #![trigger update_due(self.last_update_time, now)] r@ == health_label(health_score(self.realtime_protection_enabled,
                update_due(self.last_update_time, now), scan_due(self.last_scan_time, now),
                self.threats_detected_today)),
    {
        Self::health_status_of(self.get_health_score())
    }

    /// The label of a health score.
    pub fn health_status_of(score: u8) -> (r: &'static str)
        ensures
            r@ == health_label(score as int),
    {
        if score >= 90 {
            "Excellent"
        } else if score >= 70 {
            "Good"
        } else if score >= 50 {
            "Fair"
        } else if score >= 30 {
            "Poor"
        } else {
            "Critical"
        }
    }
}

/// Engine-wide configuration, as the scan service keeps it.
#[derive(Debug, Clone)]
pub struct AntivirusConfig {
    pub realtime_protection: RealtimeConfig,
    pub scan_settings: ScanConfig,
    pub quarantine_settings: QuarantineConfig,
    pub update_settings: UpdateConfig,
    pub whitelist: Vec<WhitelistEntry>,
    pub enterprise_policy: Option<EnterprisePolicy>,
}

impl Default for AntivirusConfig {
    fn default() -> (r: Self)
        ensures
            r.realtime_protection == RealtimeConfig::default_value(),
            r.scan_settings == ScanConfig::default_value(),
            r.quarantine_settings == QuarantineConfig::default_value(),
            r.update_settings.auto_update_enabled,
            r.update_settings.update_frequency_hours == 4,
            r.update_settings.use_delta_updates,
            r.update_settings.update_server_url@ == "https://updates.windowsantivirus.com"@,
            r.whitelist@.len() == 0,
            r.enterprise_policy is None,
    {
        AntivirusConfig {
            realtime_protection: RealtimeConfig::default(),
            scan_settings: ScanConfig::default(),
            quarantine_settings: QuarantineConfig::default(),
            update_settings: UpdateConfig::default(),
            whitelist: Vec::new(),
            enterprise_policy: None,
        }
    }
}

/// Real-time protection configuration
#[derive(Debug, Clone, Copy, PartialEq, Eq, Structural)]
pub struct RealtimeConfig {
    pub enabled: bool,
    pub scan_on_access: bool,
    pub scan_on_write: bool,
    pub scan_archives: bool,
    pub scan_email_attachments: bool,
    pub scan_network_drives: bool,
    pub scan_network_traffic: bool,
}

impl RealtimeConfig {
    /// The default real-time configuration: everything on but network drives.
    pub open spec fn default_value() -> RealtimeConfig {
        RealtimeConfig {
            enabled: true,
            scan_on_access: true,
            scan_on_write: true,
            scan_archives: true,
            scan_email_attachments: true,
            scan_network_drives: false,
            scan_network_traffic: true,
        }
    }
}

impl Default for RealtimeConfig {
    fn default() -> (r: Self)
        ensures
            r == RealtimeConfig::default_value(),
    {
        RealtimeConfig {
            enabled: true,
            scan_on_access: true,
            scan_on_write: true,
            scan_archives: true,
            scan_email_attachments: true,
            scan_network_drives: false,
            scan_network_traffic: true,
        }
    }
}

/// Scan configuration
#[derive(Debug, Clone, Copy, PartialEq, Eq, Structural)]
pub struct ScanConfig {
    pub max_file_size_mb: u64,
    pub scan_timeout_seconds: u32,
    pub heuristic_level: u8,
    pub use_machine_learning: bool,
    pub scan_packed_files: bool,
    pub max_scan_depth: u32,
}

impl ScanConfig {
    /// The default scan configuration.
    pub open spec fn default_value() -> ScanConfig {
        ScanConfig {
            max_file_size_mb: 100,
            scan_timeout_seconds: 30,
            heuristic_level: 2,
            use_machine_learning: true,
            scan_packed_files: true,
            max_scan_depth: 10,
        }
    }
}

impl Default for ScanConfig {
    fn default() -> (r: Self)
        ensures
            r == ScanConfig::default_value(),
    {
        ScanConfig {
            max_file_size_mb: 100,
            scan_timeout_seconds: 30,
            heuristic_level: 2,
            use_machine_learning: true,
            scan_packed_files: true,
            max_scan_depth: 10,
        }
    }
}

/// Quarantine configuration
#[derive(Debug, Clone, Copy, PartialEq, Eq, Structural)]
pub struct QuarantineConfig {
    pub max_size_gb: u64,
    pub auto_delete_days: u32,
    pub encrypt_files: bool,
    pub backup_original_permissions: bool,
}

impl QuarantineConfig {
    /// The default quarantine configuration.
    pub open spec fn default_value() -> QuarantineConfig {
        QuarantineConfig {
            max_size_gb: 10,
            auto_delete_days: 30,
            encrypt_files: true,
            backup_original_permissions: true,
        }
    }
}

impl Default for QuarantineConfig {
    fn default() -> (r: Self)
        ensures
            r == QuarantineConfig::default_value(),
    {
        QuarantineConfig {
            max_size_gb: 10,
            auto_delete_days: 30,
            encrypt_files: true,
            backup_original_permissions: true,
        }
    }
}

/// Update configuration
#[derive(Debug, Clone)]
pub struct UpdateConfig {
    pub auto_update_enabled: bool,
    pub update_frequency_hours: u32,
    pub use_delta_updates: bool,
    pub update_server_url: String,
}

impl Default for UpdateConfig {
    fn default() -> (r: Self)
        ensures
            r.auto_update_enabled,
            r.update_frequency_hours == 4,
            r.use_delta_updates,
            r.update_server_url@ == "https://updates.windowsantivirus.com"@,
    {
        UpdateConfig {
            auto_update_enabled: true,
            update_frequency_hours: 4,
            use_delta_updates: true,
            update_server_url: owned("https://updates.windowsantivirus.com"),
        }
    }
}

/// Whitelist entry
#[derive(Debug, Clone)]
pub struct WhitelistEntry {
    pub entry_type: WhitelistEntryType,
    pub value: String,
    pub description: Option<String>,
    pub created_at: Timestamp,
    pub expires_at: Option<Timestamp>,
}

/// Types of whitelist entries
#[derive(Debug, Clone, Copy, PartialEq, Eq, Structural)]
pub enum WhitelistEntryType {
    FilePath,
    FileHash,
    ProcessName,
    Directory,
    Extension,
}

/// Enterprise policy configuration
#[derive(Debug, Clone)]
pub struct EnterprisePolicy {
    pub policy_version: String,
    pub policy_name: String,
    pub restrictions: PolicyRestrictions,
    pub mandatory_settings: MandatorySettings,
    pub applied_at: Timestamp,
}

/// Policy restrictions
#[derive(Debug, Clone, Copy, PartialEq, Eq, Structural)]
pub struct PolicyRestrictions {
    pub allow_user_whitelist: bool,
    pub allow_disable_realtime: bool,
    pub allow_quarantine_restore: bool,
    pub require_admin_for_settings: bool,
    pub force_update_schedule: bool,
}

/// Mandatory settings enforced by policy
#[derive(Debug, Clone)]
pub struct MandatorySettings {
    pub minimum_scan_frequency_days: u32,
    pub required_protection_level: ProtectionLevel,
    pub blocked_file_types: Vec<String>,
    pub required_logging_level: LogLevel,
}

/// Protection levels
#[derive(Debug, Clone, Copy, PartialEq, Eq, Structural)]
pub enum ProtectionLevel {
    Basic,
    Standard,
    Enhanced,
    Maximum,
}

/// Logging levels
#[derive(Debug, Clone, Copy, PartialEq, Eq, Structural)]
pub enum LogLevel {
    Error,
    Warn,
    Info,
    Debug,
    Trace,
}

/// Update information
#[derive(Debug, Clone)]
pub struct UpdateInfo {
    pub component_name: String,
    pub current_version: String,
    pub new_version: String,
    pub release_date: Timestamp,
    pub size_bytes: u64,
    pub download_url: String,
    pub signature: String,
    pub description: String,
    pub is_critical: bool,
}

/// Process information for process monitoring
#[derive(Debug, Clone)]
pub struct ProcessInfo {
    pub process_id: u32,
    pub parent_process_id: u32,
    pub process_name: String,
    pub executable_path: String,
    pub command_line: String,
    pub creation_time: Timestamp,
}

/// Thread information for thread monitoring
#[derive(Debug, Clone, Copy)]
pub struct ThreadInfo {
    pub thread_id: u32,
    pub process_id: u32,
    pub creation_time: Timestamp,
}

/// Image load information for DLL monitoring
#[derive(Debug, Clone)]
pub struct ImageInfo {
    pub process_id: u32,
    pub image_path: String,
    pub base_address: u64,
    pub image_size: u64,
    pub load_time: Timestamp,
}

/// Two to the power `e`.
pub open spec fn pow2(e: nat) -> nat
    decreases e,
{
    if e == 0 {
        1
    } else {
        2 * pow2((e - 1) as nat)
    }
}

/// The number of binary digits of `n`.
pub open spec fn bit_len(n: nat) -> nat
    decreases n,
{
    if n == 0 {
        0
    } else {
        1 + bit_len(n / 2)
    }
}

/// `n / d` rounded to the nearest integer, ties to the even one.
pub open spec fn div_round_even(n: nat, d: nat) -> nat {
    let q = n / d;
    let r = n % d;
    if 2 * r > d || (2 * r == d && q % 2 == 1) {
        q + 1
    } else {
        q
    }
}

/// The value of `n` as a double: rounded to 53 significant bits, ties to
/// even.
pub open spec fn as_double(n: nat) -> nat {
    if bit_len(n) <= 53 {
        n
    } else {
        let unit = pow2((bit_len(n) - 53) as nat);
        div_round_even(n, unit) * unit
    }
}

/// The unit in which a size is shown: the largest power of 1024 (at most
/// the fourth) that it reaches.
pub open spec fn size_unit(n: nat) -> nat {
    if n >= 0x100_0000_0000 {
        4
    } else if n >= 0x4000_0000 {
        3
    } else if n >= 0x10_0000 {
        2
    } else if n >= 0x400 {
        1
    } else {
        0
    }
}

/// The name of a size unit.
pub open spec fn unit_name(k: nat) -> Seq<char> {
    if k == 0 {
        "B"@
    } else if k == 1 {
        "KB"@
    } else if k == 2 {
        "MB"@
    } else if k == 3 {
        "GB"@
    } else {
        "TB"@
    }
}

/// Hundredths written with two digits.
pub open spec fn two_digits(h: nat) -> Seq<char> {
    seq![digit_char(h / 10), digit_char(h % 10)]
}

/// A file size as people read it: bytes below 1 KiB, otherwise the size in
/// the largest unit reached with two decimals, rounded half to even from
/// the size as a double.
pub open spec fn formatted_size(n: nat) -> Seq<char> {
    let k = size_unit(n);
    if k == 0 {
        decimal(n) + " "@ + unit_name(0)
    } else {
        let h = div_round_even(as_double(n) * 100, pow2(10 * k));
        decimal(h / 100) + "."@ + two_digits(h % 100) + " "@ + unit_name(k)
    }
}

fn pow2_exec(e: u32) -> (r: u128)
    requires
        e <= 64,
    ensures
        r == pow2(e as nat),
{
    proof {
        lemma_pow2_mono(0, 64);
        assert(pow2(64) == 0x1_0000_0000_0000_0000) by {
            reveal_with_fuel(pow2, 65);
        }
    }
    let mut r: u128 = 1;
    let mut i: u32 = 0;
    while i < e
        invariant
            i <= e <= 64,
            r == pow2(i as nat),
            pow2(64) == 0x1_0000_0000_0000_0000,
        decreases e - i,
    {
        proof {
            lemma_pow2_mono((i + 1) as nat, 64);
        }
        r = r * 2;
        i = i + 1;
    }
    r
}

proof fn lemma_pow2_mono(a: nat, b: nat)
    requires
        a <= b,
    ensures
        pow2(a) <= pow2(b),
        pow2(a) >= 1,
    decreases b,
{
    if b > 0 {
        if a < b {
            lemma_pow2_mono(a, (b - 1) as nat);
        }
        lemma_pow2_mono(0, (b - 1) as nat);
    }
}

proof fn lemma_bit_len_bound(n: nat, e: nat)
    requires
        n < pow2(e),
    ensures
        bit_len(n) <= e,
    decreases n,
{
    if n > 0 {
        assert(e > 0) by {
            if e == 0 {
                assert(pow2(0) == 1);
            }
        }
        assert(n / 2 < pow2((e - 1) as nat));
        lemma_bit_len_bound(n / 2, (e - 1) as nat);
    }
}

fn bit_len_exec(n: u64) -> (r: u32)
    ensures
        r == bit_len(n as nat),
        r <= 64,
{
    assert(pow2(64) == 0x1_0000_0000_0000_0000) by {
                reveal_with_fuel(pow2, 65);
            }
    let mut m: u64 = n;
    let mut c: u32 = 0;
    while m > 0
        invariant
            bit_len(n as nat) == c + bit_len(m as nat),
            c <= 64,
            m < pow2((64 - c) as nat),
        decreases m,
    {
        assert(c < 64) by {
            if c == 64 {
                assert(pow2(0) == 1);
            }
        }
        assert(m / 2 < pow2((63 - c) as nat));
        m = m / 2;
        c = c + 1;
    }
    c
}

/// `div_round_even` on machine integers.
fn div_round_even_exec(n: u128, d: u128) -> (r: u128)
    requires
        0 < d < 0x1_0000_0000_0000_0000_0000,
        n < 0x1_0000_0000_0000_0000_0000,
    ensures
        r == div_round_even(n as nat, d as nat),
        r <= n / d + 1,
{
    let q = n / d;
    let r = n % d;
    if 2 * r > d || (2 * r == d && q % 2 == 1) {
        q + 1
    } else {
        q
    }
}

proof fn lemma_round_bound(q: nat, n: nat, d: nat)
    requires
        d > 0,
        q <= n / d + 1,
    ensures
        q * d <= n + d,
{
    assert(q * d <= (n / d + 1) * d) by (nonlinear_arith)
        requires
            q <= n / d + 1,
            d > 0,
    ;
    assert((n / d + 1) * d <= n + d) by (nonlinear_arith)
        requires
            d > 0,
    ;
}

/// `as_double` on machine integers.
fn as_double_exec(n: u64) -> (r: u128)
    ensures
        r == as_double(n as nat),
        r <= n + 0x800,
{
    let bl = bit_len_exec(n);
    if bl <= 53 {
        n as u128
    } else {
        let unit = pow2_exec(bl - 53);
        proof {
            lemma_pow2_mono((bl - 53) as nat, 11);
            assert(pow2(11) == 0x800) by {
                reveal_with_fuel(pow2, 12);
            }
        }
        let q = div_round_even_exec(n as u128, unit);
        proof {
            lemma_round_bound(q as nat, n as nat, unit as nat);
        }
        q * unit
    }
}

/// The name of a size unit as text.
fn unit_label(k: u32) -> (r: &'static str)
    requires
        k <= 4,
    ensures
        r@ == unit_name(k as nat),
{
    if k == 0 {
        proof { reveal_strlit("B"); }
        "B"
    } else if k == 1 {
        proof { reveal_strlit("KB"); }
        "KB"
    } else if k == 2 {
        proof { reveal_strlit("MB"); }
        "MB"
    } else if k == 3 {
        proof { reveal_strlit("GB"); }
        "GB"
    } else {
        proof { reveal_strlit("TB"); }
        "TB"
    }
}

impl QuarantineEntry {
    /// Get human-readable file size
    pub fn get_formatted_size(&self) -> (r: String)
        ensures
            r@ == formatted_size(self.file_size as nat),
    {
        let n = self.file_size;
        if n < 1024 {
            let mut s = String::new();
            push_decimal(&mut s, n);
            push_char(&mut s, ' ');
            s.append(unit_label(0));
            proof {
                reveal_strlit(" ");
            }
            assert(s@ == formatted_size(n as nat));
            return s;
        }
        let k: u32 = if n >= 0x100_0000_0000 {
            4
        } else if n >= 0x4000_0000 {
            3
        } else if n >= 0x10_0000 {
            2
        } else {
            1
        };
        let d = pow2_exec(10 * k);
        proof {
            lemma_pow2_mono(10, (10 * k) as nat);
            lemma_pow2_mono((10 * k) as nat, 40);
            assert(pow2(10) == 1024) by {
                reveal_with_fuel(pow2, 11);
            }
            assert(pow2(40) == 0x100_0000_0000) by {
                reveal_with_fuel(pow2, 41);
            }
        }
        let m = as_double_exec(n);
        let h = div_round_even_exec(m * 100, d);
        proof {
            let mi = (m * 100) as int;
            let di = d as int;
            assert(mi / di <= mi / 1024) by (nonlinear_arith)
                requires
                    di >= 1024,
                    mi >= 0,
            ;
            assert(h / 100 < 0x1_0000_0000_0000_0000);
        }
        let whole = (h / 100) as u64;
        let frac = (h % 100) as u64;
        let mut s = String::new();
        push_decimal(&mut s, whole);
        push_char(&mut s, '.');
        push_decimal(&mut s, frac / 10);
        push_decimal(&mut s, frac % 10);
        push_char(&mut s, ' ');
        s.append(unit_label(k));
        proof {
            reveal_strlit(" ");
            reveal_strlit(".");
        }
        assert(s@ == formatted_size(n as nat));
        s
    }
}

} // verus!
