//! In-memory detection: masked signature search over process memory,
//! heuristics on memory regions, and rootkit detectors. Process access is
//! simulated: the regions and their contents are fixed samples.
use vstd::prelude::*;
use vstd::string::StringExecFns;
use crate::clock::now_millis;
use crate::error::AntivirusError;
use crate::pairs::{details_of, insert_pair, pair_views};
use crate::text::{decimal, owned, push_char, u64_to_string};
use crate::types::{same_threat, threat_error, DetectionMethod, ScanResult, ThreatInfo, ThreatSeverity, ThreatType};

verus! {

/// Configuration for memory scanning
#[derive(Debug, Clone, Copy, PartialEq, Eq, Structural)]
pub struct MemoryScanConfig {
    /// Maximum memory region size to scan (in bytes)
    pub max_region_size: usize,
    /// Timeout for scanning a single process (in seconds)
    pub scan_timeout_seconds: u32,
    /// Enable rootkit detection
    pub enable_rootkit_detection: bool,
    /// Enable heuristic analysis
    pub enable_heuristic_analysis: bool,
    /// Maximum number of concurrent scans
    pub max_concurrent_scans: usize,
}

/// The default memory scan configuration.
pub open spec fn default_memory_config() -> MemoryScanConfig {
    MemoryScanConfig {
        max_region_size: 104857600usize,
        scan_timeout_seconds: 30,
        enable_rootkit_detection: true,
        enable_heuristic_analysis: true,
        max_concurrent_scans: 4,
    }
}

impl Default for MemoryScanConfig {
    fn default() -> (r: Self)
        ensures
            r == default_memory_config(),
    {
        MemoryScanConfig {
            max_region_size: 100 * 1024 * 1024,
            scan_timeout_seconds: 30,
            enable_rootkit_detection: true,
            enable_heuristic_analysis: true,
            max_concurrent_scans: 4,
        }
    }
}

/// A masked byte pattern that identifies a threat in memory.
#[derive(Debug, Clone)]
pub struct MemorySignature {
    pub id: String,
    pub pattern: Vec<u8>,
    pub mask: Vec<u8>,
    pub threat_info: ThreatInfo,
    pub min_offset: usize,
    pub max_offset: Option<usize>,
}

/// A rootkit detection method.
#[derive(Debug, Clone)]
pub struct RootkitDetector {
    pub name: String,
    pub detector_type: RootkitDetectorType,
    pub severity: ThreatSeverity,
}

/// Types of rootkit detection methods
#[derive(Debug, Clone, Copy, PartialEq, Eq, Structural)]
pub enum RootkitDetectorType {
    HiddenProcess,
    SsdtHook,
    InlineHook,
    DllInjection,
    ProcessHollowing,
    MemoryPatching,
}

/// What the scanner keeps about a process.
#[derive(Debug)]
pub struct ProcessHandle {
    pub process_id: u32,
    pub process_name: String,
    pub executable_path: String,
    pub memory_regions: Vec<MemoryRegion>,
    pub last_scan_time: Option<i64>,
}

/// Memory region information
#[derive(Debug)]
pub struct MemoryRegion {
    pub base_address: u64,
    pub size: usize,
    pub protection: MemoryProtection,
    pub region_type: MemoryRegionType,
    pub module_name: Option<String>,
}

impl Clone for MemoryRegion {
    fn clone(&self) -> (r: Self)
        ensures
            r == *self,
    {
        MemoryRegion {
            base_address: self.base_address,
            size: self.size,
            protection: self.protection,
            region_type: self.region_type,
            module_name: match &self.module_name {
                Some(m) => Some(m.clone()),
                None => None,
            },
        }
    }
}

/// Memory protection flags
#[derive(Debug, Clone, Copy, PartialEq, Eq, Structural)]
pub enum MemoryProtection {
    NoAccess,
    ReadOnly,
    ReadWrite,
    ExecuteOnly,
    ExecuteRead,
    ExecuteReadWrite,
    Guard,
}

/// Types of memory regions
#[derive(Debug, Clone, Copy, PartialEq, Eq, Structural)]
pub enum MemoryRegionType {
    Image,
    Mapped,
    Private,
    Heap,
    Stack,
}

/// Result of memory scanning operation
#[derive(Debug, Clone)]
pub struct MemoryScanResult {
    pub process_id: u32,
    pub process_name: String,
    pub threats_found: Vec<MemoryThreat>,
    pub rootkit_indicators: Vec<RootkitIndicator>,
    pub scan_stats: MemoryScanStats,
    pub scan_duration_ms: u64,
}

/// Threat found in memory. `confidence` holds the IEEE-754 single-precision
/// bits of the confidence.
#[derive(Debug, Clone)]
pub struct MemoryThreat {
    pub threat_info: ThreatInfo,
    pub memory_address: u64,
    pub pattern_size: usize,
    pub memory_region: MemoryRegion,
    pub confidence: u32,
}

/// Rootkit indicator found during scanning
#[derive(Debug, Clone)]
pub struct RootkitIndicator {
    pub indicator_type: RootkitDetectorType,
    pub description: String,
    pub memory_address: Option<u64>,
    pub severity: ThreatSeverity,
    pub details: Vec<(String, String)>,
}

/// Statistics for memory scan operation
#[derive(Debug, Clone, Copy, PartialEq, Eq, Structural)]
pub struct MemoryScanStats {
    pub regions_scanned: u64,
    pub bytes_scanned: u64,
    pub executable_regions: u64,
    pub suspicious_regions: u64,
    pub signature_matches: u64,
    pub heuristic_detections: u64,
}

/// Statistics with every count at zero.
pub open spec fn zero_memory_stats() -> MemoryScanStats {
    MemoryScanStats {
        regions_scanned: 0,
        bytes_scanned: 0,
        executable_regions: 0,
        suspicious_regions: 0,
        signature_matches: 0,
        heuristic_detections: 0,
    }
}

impl Default for MemoryScanStats {
    fn default() -> (r: Self)
        ensures
            r == zero_memory_stats(),
    {
        MemoryScanStats {
            regions_scanned: 0,
            bytes_scanned: 0,
            executable_regions: 0,
            suspicious_regions: 0,
            signature_matches: 0,
            heuristic_detections: 0,
        }
    }
}

/// The bits of the single-precision number 0.9.
pub const CONFIDENCE_SIGNATURE: u32 = 0x3F66_6666;

/// The bits of the single-precision number 0.6.
pub const CONFIDENCE_HEURISTIC: u32 = 0x3F19_999A;

/// The pattern matches `data` at `i`, bytes with a zero mask matching any.
pub open spec fn masked_at(data: Seq<u8>, pattern: Seq<u8>, mask: Seq<u8>, i: int) -> bool {
    &&& 0 <= i && i + pattern.len() <= data.len()
    &&& forall|j: int| 0 <= j < pattern.len() ==> mask[j] == 0 || #[trigger] data[i + j] == pattern[j]
}

/// The first position of a masked match, when the pattern is usable: the
/// same length as the mask, not empty and not longer than the data.
pub open spec fn pattern_search_ok(data: Seq<u8>, pattern: Seq<u8>, mask: Seq<u8>) -> bool {
    pattern.len() == mask.len() && pattern.len() > 0 && data.len() >= pattern.len()
}

/// A region whose protection allows execution.
pub open spec fn executable(p: MemoryProtection) -> bool {
    p == MemoryProtection::ExecuteRead || p == MemoryProtection::ExecuteReadWrite || p
        == MemoryProtection::ExecuteOnly
}

/// A region that looks like injected or hidden code: executable heap or
/// private memory, a large anonymous executable region, or an unusual base.
pub open spec fn suspicious_region(r: MemoryRegion) -> bool {
    ||| ((r.region_type == MemoryRegionType::Heap || r.region_type == MemoryRegionType::Private)
        && executable(r.protection))
    ||| (r.size > 10 * 1024 * 1024 && r.module_name is None && (r.protection
        == MemoryProtection::ExecuteReadWrite || r.protection == MemoryProtection::ExecuteRead))
    ||| (r.base_address < 0x10000 || r.base_address > 0x7FFF_FFFF)
}

/// A region larger than 10 MiB that belongs to no module and can be both
/// executed and read is suspicious, whatever its type and address.
pub proof fn lemma_large_anonymous_code_is_suspicious(r: MemoryRegion)
    requires
        r.size > 10 * 1024 * 1024,
        r.module_name is None,
        r.protection == MemoryProtection::ExecuteRead || r.protection == MemoryProtection::ExecuteReadWrite,
    ensures
        suspicious_region(r),
{
}

/// The sample contents of a region of `size` bytes: zeros, with a PE header
/// start at 50 and `CreateRemoteThread` at 100 when they fit.
pub open spec fn sample_memory(size: int) -> Seq<u8> {
    let pe: Seq<u8> = seq![0x4Du8, 0x5A, 0x90, 0x00, 0x03, 0x00, 0x00, 0x00];
    let api: Seq<u8> = seq![0x43u8, 0x72, 0x65, 0x61, 0x74, 0x65, 0x52, 0x65, 0x6D, 0x6F, 0x74, 0x65, 0x54, 0x68, 0x72, 0x65, 0x61, 0x64];
    Seq::new(size as nat, |i: int|
        if size > 100 && 50 <= i < 58 {
            pe[i - 50]
        } else if size > 100 && size >= 118 && 100 <= i < 118 {
            api[i - 100]
        } else {
            0u8
        })
}

/// The lowercase hexadecimal text of a number, without leading zeros.
pub open spec fn hex_text(n: nat) -> Seq<char>
    decreases n,
{
    if n < 16 {
        seq![hex_char_of(n)]
    } else {
        hex_text(n / 16).push(hex_char_of(n % 16))
    }
}

/// The lowercase hexadecimal digit of a value below 16.
pub open spec fn hex_char_of(d: nat) -> char {
    if d < 10 {
        (('0' as nat) + d) as char
    } else {
        (('a' as nat) + d - 10) as char
    }
}

fn hex_char(d: u64) -> (c: char)
    requires
        d < 16,
    ensures
        c == hex_char_of(d as nat),
{
    let table: [char; 16] = ['0', '1', '2', '3', '4', '5', '6', '7', '8', '9', 'a', 'b', 'c', 'd', 'e', 'f'];
    let c = table[d as usize];
    assert(table@[d as int] == hex_char_of(d as nat));
    c
}

fn push_hex(s: &mut String, n: u64)
    ensures
        final(s)@ == old(s)@ + hex_text(n as nat),
    decreases n,
{
    if n >= 16 {
        push_hex(s, n / 16);
    }
    push_char(s, hex_char(n % 16));
    proof {
        if n >= 16 {
            assert(old(s)@ + hex_text((n / 16) as nat) + seq![hex_char_of((n % 16) as nat)] =~= old(s)@ + hex_text(n as nat));
        } else {
            assert(old(s)@ + seq![hex_char_of(n as nat)] =~= old(s)@ + hex_text(n as nat));
        }
    }
}

/// `{:x}` of a number.
pub fn to_hex_text(n: u64) -> (r: String)
    ensures
        r@ == hex_text(n as nat),
{
    let mut s = String::new();
    push_hex(&mut s, n);
    assert(Seq::<char>::empty() + hex_text(n as nat) =~= hex_text(n as nat));
    s
}

/// The memory scanner: signatures, rootkit detectors, known processes and
/// settings.
pub struct MemoryScanner {
    pub signature_patterns: Vec<MemorySignature>,
    pub rootkit_detectors: Vec<RootkitDetector>,
    process_handles: Vec<ProcessHandle>,
    config: MemoryScanConfig,
}

/// The default rootkit detectors, as name, type and severity.
pub open spec fn default_detectors() -> Seq<(Seq<char>, RootkitDetectorType, ThreatSeverity)> {
    seq![
        ("Hidden Process Detector"@, RootkitDetectorType::HiddenProcess, ThreatSeverity::High),
        ("SSDT Hook Detector"@, RootkitDetectorType::SsdtHook, ThreatSeverity::Critical),
        ("Inline Hook Detector"@, RootkitDetectorType::InlineHook, ThreatSeverity::High),
        ("DLL Injection Detector"@, RootkitDetectorType::DllInjection, ThreatSeverity::Medium),
        ("Process Hollowing Detector"@, RootkitDetectorType::ProcessHollowing, ThreatSeverity::Critical),
        ("Memory Patching Detector"@, RootkitDetectorType::MemoryPatching, ThreatSeverity::High),
    ]
}

/// The detectors as name, type and severity.
pub open spec fn detector_views(v: Seq<RootkitDetector>) -> Seq<(Seq<char>, RootkitDetectorType, ThreatSeverity)> {
    Seq::new(v.len(), |i: int| (v[i].name@, v[i].detector_type, v[i].severity))
}

/// The period, in seconds, at which a detector of the type reports.
pub open spec fn detector_period(t: RootkitDetectorType) -> int {
    match t {
        RootkitDetectorType::HiddenProcess => 10,
        RootkitDetectorType::SsdtHook => 20,
        RootkitDetectorType::InlineHook => 12,
        RootkitDetectorType::DllInjection => 8,
        RootkitDetectorType::ProcessHollowing => 16,
        RootkitDetectorType::MemoryPatching => 14,
    }
}

/// The address that a detector of the type reports.
pub open spec fn detector_address(t: RootkitDetectorType) -> u64 {
    match t {
        RootkitDetectorType::HiddenProcess => 0x8000_0000,
        RootkitDetectorType::SsdtHook => 0x1234_5678,
        RootkitDetectorType::InlineHook => 0x7C80_1234,
        RootkitDetectorType::DllInjection => 0x1000_0000,
        RootkitDetectorType::ProcessHollowing => 0x0040_0000,
        RootkitDetectorType::MemoryPatching => 0x8050_2468,
    }
}

/// The description that a detector of the type reports.
pub open spec fn detector_description(t: RootkitDetectorType) -> Seq<char> {
    match t {
        RootkitDetectorType::HiddenProcess => "Hidden process detected via PEB/EPROCESS comparison"@,
        RootkitDetectorType::SsdtHook => "SSDT hook detected on NtCreateFile"@,
        RootkitDetectorType::InlineHook => "Inline hook detected in CreateFileW"@,
        RootkitDetectorType::DllInjection => "DLL injection detected via SetWindowsHookEx"@,
        RootkitDetectorType::ProcessHollowing => "Process hollowing detected - svchost.exe replaced"@,
        RootkitDetectorType::MemoryPatching => "Memory patching detected in NtQuerySystemInformation"@,
    }
}

/// The details that a detector of the type reports.
pub open spec fn detector_details(t: RootkitDetectorType) -> Seq<(Seq<char>, Seq<char>)> {
    match t {
        RootkitDetectorType::HiddenProcess => seq![("detection_method"@, "PEB_vs_EPROCESS"@), ("hidden_pid"@, "1234"@)],
        RootkitDetectorType::SsdtHook => seq![
            ("hooked_function"@, "NtCreateFile"@),
            ("original_address"@, "0x80501234"@),
            ("hooked_address"@, "0x12345678"@),
        ],
        RootkitDetectorType::InlineHook => seq![("hooked_function"@, "CreateFileW"@), ("module"@, "kernel32.dll"@)],
        RootkitDetectorType::DllInjection => seq![("injected_dll"@, "malicious.dll"@), ("injection_method"@, "SetWindowsHookEx"@)],
        RootkitDetectorType::ProcessHollowing => seq![("original_image"@, "svchost.exe"@), ("replaced_image"@, "malware.exe"@)],
        RootkitDetectorType::MemoryPatching => seq![("patched_function"@, "NtQuerySystemInformation"@), ("patch_size"@, "12"@)],
    }
}

/// The indicator is the report of the detector.
pub open spec fn reported_by(ind: RootkitIndicator, d: RootkitDetector) -> bool {
    &&& ind.indicator_type == d.detector_type
    &&& ind.severity == d.severity
    &&& ind.memory_address == Some(detector_address(d.detector_type))
    &&& ind.description@ == detector_description(d.detector_type)
    &&& pair_views(ind.details@) == detector_details(d.detector_type)
}

/// `after` is `before` followed by the reports of the detectors at the
/// positions `idx`, which increase: each detector reports at most once, in
/// the detectors' order.
pub open spec fn appended_reports(
    detectors: Seq<RootkitDetector>,
    before: Seq<RootkitIndicator>,
    after: Seq<RootkitIndicator>,
    idx: Seq<int>,
) -> bool {
    &&& after.len() == before.len() + idx.len()
    &&& after.subrange(0, before.len() as int) == before
    &&& forall|k: int| 0 <= k < idx.len() ==> 0 <= #[trigger] idx[k] < detectors.len()
    &&& forall|k1: int, k2: int| 0 <= k1 < k2 < idx.len() ==> #[trigger] idx[k1] < #[trigger] idx[k2]
    &&& forall|k: int| 0 <= k < idx.len() ==> reported_by(after[before.len() + k], detectors[#[trigger] idx[k]])
}

fn detector(name: &str, detector_type: RootkitDetectorType, severity: ThreatSeverity) -> (r: RootkitDetector)
    ensures
        r.name@ == name@,
        r.detector_type == detector_type,
        r.severity == severity,
{
    RootkitDetector { name: owned(name), detector_type, severity }
}

impl MemoryScanner {
    /// A scanner with the default configuration.
    pub fn new() -> (r: Self)
        ensures
            r.signatures().len() == 0,
            detector_views(r.detectors()) == default_detectors(),
            r.config() == default_memory_config(),
    {
        Self::with_config(MemoryScanConfig::default())
    }

    /// A scanner with the given configuration, no signatures and the default
    /// rootkit detectors.
    pub fn with_config(config: MemoryScanConfig) -> (r: Self)
        ensures
            r.signatures().len() == 0,
            detector_views(r.detectors()) == default_detectors(),
            r.config() == config,
            r.known_processes().len() == 0,
    {
        MemoryScanner {
            signature_patterns: Vec::new(),
            rootkit_detectors: Self::create_default_rootkit_detectors(),
            process_handles: Vec::new(),
            config,
        }
    }

    /// The configuration.
    pub closed spec fn config(&self) -> MemoryScanConfig {
        self.config
    }

    /// The signatures.
    pub closed spec fn signatures(&self) -> Seq<MemorySignature> {
        self.signature_patterns@
    }

    /// The rootkit detectors.
    pub closed spec fn detectors(&self) -> Seq<RootkitDetector> {
        self.rootkit_detectors@
    }

    /// The processes the scanner has opened, by identifier.
    pub closed spec fn known_processes(&self) -> Seq<u32> {
        Seq::new(self.process_handles@.len(), |i: int| self.process_handles@[i].process_id)
    }

    /// Replaces the signatures.
    pub fn load_signatures(&mut self, signatures: Vec<MemorySignature>) -> (r: Result<(), AntivirusError>)
        ensures
            r is Ok,
            final(self).signatures() == signatures@,
            final(self).detectors() == old(self).detectors(),
            final(self).config() == old(self).config(),
    {
        self.signature_patterns = signatures;
        Ok(())
    }

    /// Adds a signature after the others.
    pub fn add_signature(&mut self, signature: MemorySignature)
        ensures
            final(self).signatures() == old(self).signatures().push(signature),
            final(self).detectors() == old(self).detectors(),
            final(self).config() == old(self).config(),
    {
        self.signature_patterns.push(signature);
    }

    /// The first position at which the masked pattern matches the data, or
    /// `None` when the pattern is unusable or matches nowhere.
    pub fn find_pattern(&self, data: &[u8], pattern: &[u8], mask: &[u8]) -> (r: Option<usize>)
        ensures
            match r {
                Some(i) => pattern_search_ok(data@, pattern@, mask@) && masked_at(data@, pattern@, mask@, i as int)
                    && forall|k: int| 0 <= k < i ==> !masked_at(data@, pattern@, mask@, k),
                None => !pattern_search_ok(data@, pattern@, mask@) || forall|k: int|
                    0 <= k <= data@.len() - pattern@.len() ==> !masked_at(data@, pattern@, mask@, k),
            },
    {
        if pattern.len() != mask.len() || pattern.len() == 0 || data.len() < pattern.len() {
            return None;
        }
        let dl = data.len();
        let n = data.len() - pattern.len();
        let m = pattern.len();
        let mut i: usize = 0;
        while i <= n
            invariant
                dl == data@.len(),
                m == pattern@.len(),
                m == mask@.len(),
                n == data@.len() - m,
                m > 0,
                i <= n + 1,
                forall|k: int| 0 <= k < i ==> !masked_at(data@, pattern@, mask@, k),
            decreases n + 1 - i,
        {
            let mut j: usize = 0;
            let mut matches = true;
            while j < m && matches
                invariant
                    dl == data@.len(),
                    m == pattern@.len(),
                    m == mask@.len(),
                    i + m <= data@.len(),
                    j <= m,
                    matches ==> forall|t: int| 0 <= t < j ==> mask@[t] == 0 || #[trigger] data@[i + t] == pattern@[t],
                    !matches ==> !masked_at(data@, pattern@, mask@, i as int),
                decreases m - j + (if matches { 1int } else { 0int }),
            {
                if mask[j] != 0 && data[i + j] != pattern[j] {
                    matches = false;
                } else {
                    j = j + 1;
                }
            }
            if matches {
                return Some(i);
            }
            i = i + 1;
        }
        None
    }

    /// Whether a memory region looks like injected or hidden code.
    pub fn is_suspicious_memory_region(&self, region: &MemoryRegion) -> (r: bool)
        ensures
            r == suspicious_region(*region),
    {
        let exec = region.protection == MemoryProtection::ExecuteReadWrite || region.protection
            == MemoryProtection::ExecuteRead || region.protection == MemoryProtection::ExecuteOnly;
        if (region.region_type == MemoryRegionType::Heap || region.region_type == MemoryRegionType::Private) && exec {
            return true;
        }
        if region.size > 10 * 1024 * 1024 && region.module_name.is_none() && (region.protection
            == MemoryProtection::ExecuteReadWrite || region.protection == MemoryProtection::ExecuteRead) {
            return true;
        }
        if region.base_address < 0x10000 || region.base_address > 0x7FFF_FFFF {
            return true;
        }
        false
    }

    fn create_default_rootkit_detectors() -> (r: Vec<RootkitDetector>)
        ensures
            detector_views(r@) == default_detectors(),
    {
        let mut v: Vec<RootkitDetector> = Vec::new();
        v.push(detector("Hidden Process Detector", RootkitDetectorType::HiddenProcess, ThreatSeverity::High));
        v.push(detector("SSDT Hook Detector", RootkitDetectorType::SsdtHook, ThreatSeverity::Critical));
        v.push(detector("Inline Hook Detector", RootkitDetectorType::InlineHook, ThreatSeverity::High));
        v.push(detector("DLL Injection Detector", RootkitDetectorType::DllInjection, ThreatSeverity::Medium));
        v.push(detector("Process Hollowing Detector", RootkitDetectorType::ProcessHollowing, ThreatSeverity::Critical));
        v.push(detector("Memory Patching Detector", RootkitDetectorType::MemoryPatching, ThreatSeverity::High));
        assert(detector_views(v@) =~= default_detectors());
        v
    }

    /// The sample regions of a process: its image, a heap and `kernel32.dll`.
    pub fn enumerate_memory_regions(&self, _process_id: u32) -> (r: Vec<MemoryRegion>)
        ensures
            r@.len() == 3,
            r@[0].base_address == 0x0040_0000 && r@[0].size == 0x10_0000 && r@[0].protection
                == MemoryProtection::ExecuteRead && r@[0].region_type == MemoryRegionType::Image
                && (r@[0].module_name matches Some(m) && m@ == "main.exe"@),
            r@[1].base_address == 0x1000_0000 && r@[1].size == 0x20_0000 && r@[1].protection
                == MemoryProtection::ReadWrite && r@[1].region_type == MemoryRegionType::Heap
                && r@[1].module_name is None,
            r@[2].base_address == 0x7C80_0000 && r@[2].size == 0x10_0000 && r@[2].protection
                == MemoryProtection::ExecuteRead && r@[2].region_type == MemoryRegionType::Image
                && (r@[2].module_name matches Some(m) && m@ == "kernel32.dll"@),
    {
        let mut v: Vec<MemoryRegion> = Vec::new();
        v.push(MemoryRegion {
            base_address: 0x0040_0000,
            size: 0x10_0000,
            protection: MemoryProtection::ExecuteRead,
            region_type: MemoryRegionType::Image,
            module_name: Some(owned("main.exe")),
        });
        v.push(MemoryRegion {
            base_address: 0x1000_0000,
            size: 0x20_0000,
            protection: MemoryProtection::ReadWrite,
            region_type: MemoryRegionType::Heap,
            module_name: None,
        });
        v.push(MemoryRegion {
            base_address: 0x7C80_0000,
            size: 0x10_0000,
            protection: MemoryProtection::ExecuteRead,
            region_type: MemoryRegionType::Image,
            module_name: Some(owned("kernel32.dll")),
        });
        v
    }

    /// The sample contents of a region of `size` bytes.
    pub fn read_process_memory(&self, _process_id: u32, _address: u64, size: usize) -> (r: Vec<u8>)
        ensures
            r@ == sample_memory(size as int),
    {
        let mut data: Vec<u8> = Vec::new();
        let pe: [u8; 8] = [0x4D, 0x5A, 0x90, 0x00, 0x03, 0x00, 0x00, 0x00];
        let api: [u8; 18] = [0x43, 0x72, 0x65, 0x61, 0x74, 0x65, 0x52, 0x65, 0x6D, 0x6F, 0x74, 0x65, 0x54, 0x68, 0x72, 0x65, 0x61, 0x64];
        assert(pe@ == seq![0x4Du8, 0x5A, 0x90, 0x00, 0x03, 0x00, 0x00, 0x00]);
        assert(api@ == seq![0x43u8, 0x72, 0x65, 0x61, 0x74, 0x65, 0x52, 0x65, 0x6D, 0x6F, 0x74, 0x65, 0x54, 0x68, 0x72, 0x65, 0x61, 0x64]);
        for i in 0..size
            invariant
                data@.len() == i,
                pe@ == seq![0x4Du8, 0x5A, 0x90, 0x00, 0x03, 0x00, 0x00, 0x00],
                api@ == seq![0x43u8, 0x72, 0x65, 0x61, 0x74, 0x65, 0x52, 0x65, 0x6D, 0x6F, 0x74, 0x65, 0x54, 0x68, 0x72, 0x65, 0x61, 0x64],
                forall|k: int| 0 <= k < i ==> #[trigger] data@[k] == sample_memory(size as int)[k],
        {
            let b: u8 = if size > 100 && 50 <= i && i < 58 {
                pe[i - 50]
            } else if size > 100 && size >= 118 && 100 <= i && i < 118 {
                api[i - 100]
            } else {
                0
            };
            data.push(b);
        }
        assert(data@ =~= sample_memory(size as int));
        data
    }

    /// Runs a detector at time `now_secs`: it reports when the time is a
    /// multiple of its period.
    pub fn run_rootkit_detector(&self, detector: &RootkitDetector, now_secs: u64) -> (r: Option<RootkitIndicator>)
        ensures
            r is Some <==> now_secs % (detector_period(detector.detector_type) as u64) == 0,
            r matches Some(ind) ==> ind.indicator_type == detector.detector_type && ind.severity
                == detector.severity && ind.memory_address == Some(detector_address(detector.detector_type))
                && ind.description@ == detector_description(detector.detector_type)
                && pair_views(ind.details@) == detector_details(detector.detector_type),
    {
        let t = detector.detector_type;
        match t {
            RootkitDetectorType::HiddenProcess => {
                if now_secs % 10 != 0 {
                    return None;
                }
                let details = details_of(&[("detection_method", "PEB_vs_EPROCESS"), ("hidden_pid", "1234")]);
                Some(RootkitIndicator {
                    indicator_type: t,
                    description: owned("Hidden process detected via PEB/EPROCESS comparison"),
                    memory_address: Some(0x8000_0000),
                    severity: detector.severity,
                    details,
                })
            },
            RootkitDetectorType::SsdtHook => {
                if now_secs % 20 != 0 {
                    return None;
                }
                let details = details_of(&[("hooked_function", "NtCreateFile"), ("original_address", "0x80501234"), ("hooked_address", "0x12345678")]);
                Some(RootkitIndicator {
                    indicator_type: t,
                    description: owned("SSDT hook detected on NtCreateFile"),
                    memory_address: Some(0x1234_5678),
                    severity: detector.severity,
                    details,
                })
            },
            RootkitDetectorType::InlineHook => {
                if now_secs % 12 != 0 {
                    return None;
                }
                let details = details_of(&[("hooked_function", "CreateFileW"), ("module", "kernel32.dll")]);
                Some(RootkitIndicator {
                    indicator_type: t,
                    description: owned("Inline hook detected in CreateFileW"),
                    memory_address: Some(0x7C80_1234),
                    severity: detector.severity,
                    details,
                })
            },
            RootkitDetectorType::DllInjection => {
                if now_secs % 8 != 0 {
                    return None;
                }
                let details = details_of(&[("injected_dll", "malicious.dll"), ("injection_method", "SetWindowsHookEx")]);
                Some(RootkitIndicator {
                    indicator_type: t,
                    description: owned("DLL injection detected via SetWindowsHookEx"),
                    memory_address: Some(0x1000_0000),
                    severity: detector.severity,
                    details,
                })
            },
            RootkitDetectorType::ProcessHollowing => {
                if now_secs % 16 != 0 {
                    return None;
                }
                let details = details_of(&[("original_image", "svchost.exe"), ("replaced_image", "malware.exe")]);
                Some(RootkitIndicator {
                    indicator_type: t,
                    description: owned("Process hollowing detected - svchost.exe replaced"),
                    memory_address: Some(0x0040_0000),
                    severity: detector.severity,
                    details,
                })
            },
            RootkitDetectorType::MemoryPatching => {
                if now_secs % 14 != 0 {
                    return None;
                }
                let details = details_of(&[("patched_function", "NtQuerySystemInformation"), ("patch_size", "12")]);
                Some(RootkitIndicator {
                    indicator_type: t,
                    description: owned("Memory patching detected in NtQuerySystemInformation"),
                    memory_address: Some(0x8050_2468),
                    severity: detector.severity,
                    details,
                })
            },
        }
    }

    /// The sample identifiers of the running processes.
    pub fn enumerate_processes(&self) -> (r: Vec<u32>)
        ensures
            r@ == seq![1234u32, 5678, 9012, 3456, 7890],
    {
        let mut v: Vec<u32> = Vec::new();
        v.push(1234);
        v.push(5678);
        v.push(9012);
        v.push(3456);
        v.push(7890);
        v
    }
}

/// The signature is found in the data at `off`: its first masked match,
/// within the signature's offset bounds.
pub open spec fn hit_at(data: Seq<u8>, sig: MemorySignature, off: int) -> bool {
    &&& pattern_search_ok(data, sig.pattern@, sig.mask@)
    &&& masked_at(data, sig.pattern@, sig.mask@, off)
    &&& forall|k: int| 0 <= k < off ==> !masked_at(data, sig.pattern@, sig.mask@, k)
    &&& off >= sig.min_offset
    &&& match sig.max_offset {
        Some(m) => off <= m,
        None => true,
    }
}

/// The signature is found in the data.
pub open spec fn hits(data: Seq<u8>, sig: MemorySignature) -> bool {
    exists|off: int| hit_at(data, sig, off)
}

/// The number of signatures found in the data.
pub open spec fn hit_count(data: Seq<u8>, sigs: Seq<MemorySignature>) -> nat
    decreases sigs.len(),
{
    if sigs.len() == 0 {
        0
    } else {
        hit_count(data, sigs.drop_last()) + if hits(data, sigs.last()) { 1nat } else { 0nat }
    }
}

/// Sixteen to the power `k`.
spec fn pow16(k: nat) -> nat
    decreases k,
{
    if k == 0 {
        1
    } else {
        16 * pow16((k - 1) as nat)
    }
}

/// A number below `16^k` has at most `k` hexadecimal digits.
proof fn lemma_hex_text_len(n: nat, k: nat)
    requires
        1 <= k,
        n < pow16(k),
    ensures
        hex_text(n).len() <= k,
    decreases n,
{
    reveal_with_fuel(pow16, 2);
    if n >= 16 {
        assert(n / 16 < pow16((k - 1) as nat));
        lemma_hex_text_len(n / 16, (k - 1) as nat);
    }
}

/// The hexadecimal text of an address is no valid threat hash.
proof fn lemma_address_hash_invalid(address: u64)
    ensures
        !crate::types::valid_hash(hex_text(address as nat)),
{
    reveal_with_fuel(pow16, 17);
    assert(pow16(16) == 0x1_0000_0000_0000_0000);
    lemma_hex_text_len(address as nat, 16);
}

proof fn lemma_hit_count_le(data: Seq<u8>, sigs: Seq<MemorySignature>)
    ensures
        hit_count(data, sigs) <= sigs.len(),
    decreases sigs.len(),
{
    if sigs.len() > 0 {
        lemma_hit_count_le(data, sigs.drop_last());
    }
}

/// The process name that the scanner gives a process.
pub open spec fn process_name_of(pid: u32) -> Seq<char> {
    "process_"@ + decimal(pid as nat) + ".exe"@
}

impl MemoryScanner {
    /// Records a threat for each signature found in the region's data.
    pub fn match_signatures(&self, memory_data: &[u8], region: &MemoryRegion, result: &mut MemoryScanResult)
        requires
            region.base_address + memory_data@.len() <= u64::MAX,
            old(result).scan_stats.signature_matches + self.signatures().len() <= u64::MAX,
        ensures
            final(result).threats_found@.len() == old(result).threats_found@.len() + hit_count(memory_data@, self.signatures()),
            final(result).threats_found@.subrange(0, old(result).threats_found@.len() as int) == old(result).threats_found@,
            final(result).scan_stats == (MemoryScanStats {
                signature_matches: (old(result).scan_stats.signature_matches + hit_count(memory_data@, self.signatures())) as u64,
                ..old(result).scan_stats
            }),
            final(result).process_id == old(result).process_id,
            final(result).process_name == old(result).process_name,
            final(result).rootkit_indicators == old(result).rootkit_indicators,
            final(result).scan_duration_ms == old(result).scan_duration_ms,
    {
        let sigs = &self.signature_patterns;
        let n = sigs.len();
        let ghost start = result.threats_found@;
        for i in 0..n
            invariant
                n == sigs@.len(),
                sigs@ == self.signatures(),
                region.base_address + memory_data@.len() <= u64::MAX,
                old(result).scan_stats.signature_matches + sigs@.len() <= u64::MAX,
                start == old(result).threats_found@,
                result.threats_found@.len() == start.len() + hit_count(memory_data@, sigs@.take(i as int)),
                result.threats_found@.subrange(0, start.len() as int) == start,
                result.scan_stats == (MemoryScanStats {
                    signature_matches: (old(result).scan_stats.signature_matches + hit_count(memory_data@, sigs@.take(i as int))) as u64,
                    ..old(result).scan_stats
                }),
                result.process_id == old(result).process_id,
                result.process_name == old(result).process_name,
                result.rootkit_indicators == old(result).rootkit_indicators,
                result.scan_duration_ms == old(result).scan_duration_ms,
        {
            let sig = &sigs[i];
            proof {
                assert(sigs@.take(i + 1).drop_last() =~= sigs@.take(i as int));
                assert(sigs@.take(i + 1).last() == *sig);
                lemma_hit_count_le(memory_data@, sigs@.take(i as int));
            }
            let found = self.find_pattern(memory_data, sig.pattern.as_slice(), sig.mask.as_slice());
            let mut accepted = false;
            match found {
                Some(offset) => {
                    let in_bounds = offset >= sig.min_offset && match sig.max_offset {
                        Some(m) => offset <= m,
                        None => true,
                    };
                    if in_bounds {
                        accepted = true;
                        let ghost before = result.threats_found@;
                        let threat = MemoryThreat {
                            threat_info: sig.threat_info.clone(),
                            memory_address: region.base_address + offset as u64,
                            pattern_size: sig.pattern.len(),
                            memory_region: region.clone(),
                            confidence: CONFIDENCE_SIGNATURE,
                        };
                        result.threats_found.push(threat);
                        result.scan_stats.signature_matches = result.scan_stats.signature_matches + 1;
                        assert(hit_at(memory_data@, *sig, offset as int));
                        assert(result.threats_found@.subrange(0, start.len() as int) =~= before.subrange(0, start.len() as int));
                    } else {
                        proof {
                            if hits(memory_data@, *sig) {
                                let off = choose|off: int| hit_at(memory_data@, *sig, off);
                                if off < offset {
                                    assert(!masked_at(memory_data@, sig.pattern@, sig.mask@, off));
                                }
                                if off > offset {
                                    assert(!masked_at(memory_data@, sig.pattern@, sig.mask@, offset as int));
                                }
                            }
                        }
                    }
                },
                None => {
                    proof {
                        if hits(memory_data@, *sig) {
                            let off = choose|off: int| hit_at(memory_data@, *sig, off);
                            assert(masked_at(memory_data@, sig.pattern@, sig.mask@, off));
                        }
                    }
                },
            }
            assert(accepted == hits(memory_data@, *sig));
        }
        assert(sigs@.take(n as int) =~= sigs@);
    }

    /// The process's entry, created with its sample name and path the first
    /// time the process is met.
    fn get_or_create_process_handle(&mut self, process_id: u32) -> (r: String)
        ensures
            r@ == process_name_of(process_id),
            final(self).known_processes().contains(process_id),
            final(self).signatures() == old(self).signatures(),
            final(self).detectors() == old(self).detectors(),
            final(self).config() == old(self).config(),
    {
        let mut i: usize = 0;
        while i < self.process_handles.len()
            invariant
                i <= self.process_handles@.len(),
                self.process_handles == old(self).process_handles,
                self.signature_patterns == old(self).signature_patterns,
                self.rootkit_detectors == old(self).rootkit_detectors,
                self.config == old(self).config,
            decreases self.process_handles@.len() - i,
        {
            if self.process_handles[i].process_id == process_id {
                assert(self.known_processes()[i as int] == process_id);
                let h = Self::create_process_handle(process_id);
                return h.process_name;
            }
            i = i + 1;
        }
        let handle = Self::create_process_handle(process_id);
        let name = handle.process_name.clone();
        self.process_handles.push(handle);
        assert(self.known_processes()[self.process_handles@.len() - 1] == process_id);
        name
    }

    /// The sample handle of a process: `process_<pid>.exe` in System32.
    fn create_process_handle(process_id: u32) -> (r: ProcessHandle)
        ensures
            r.process_id == process_id,
            r.process_name@ == process_name_of(process_id),
            r.executable_path@ == "C:\\Windows\\System32\\"@ + process_name_of(process_id),
            r.memory_regions@.len() == 0,
            r.last_scan_time is None,
    {
        let mut name = owned("process_");
        let d = u64_to_string(process_id as u64);
        name.append(d.as_str());
        name.append(".exe");
        let mut path = owned("C:\\Windows\\System32\\");
        path.append(name.as_str());
        ProcessHandle {
            process_id,
            process_name: name,
            executable_path: path,
            memory_regions: Vec::new(),
            last_scan_time: None,
        }
    }
}

/// The threats that the signatures find in a sample region of `size`
/// bytes, when the region is not larger than `max`.
pub open spec fn region_hits(sigs: Seq<MemorySignature>, size: int, max: int) -> nat {
    if size <= max { hit_count(sample_memory(size), sigs) } else { 0 }
}

/// The threats that the signatures find in the sample regions of a process.
pub open spec fn process_hits(sigs: Seq<MemorySignature>, max: int) -> nat {
    region_hits(sigs, 0x10_0000, max) + region_hits(sigs, 0x20_0000, max) + region_hits(sigs, 0x10_0000, max)
}

/// The bytes scanned in the sample regions of a process.
pub open spec fn process_bytes(max: int) -> int {
    (if 0x10_0000 <= max { 0x10_0000int } else { 0 }) + (if 0x20_0000 <= max { 0x20_0000int } else { 0 }) + (if 0x10_0000 <= max { 0x10_0000int } else { 0 })
}

/// The number of signatures stays far below the counters' range.
pub open spec fn signatures_bounded(sigs: Seq<MemorySignature>) -> bool {
    sigs.len() < 0x1000_0000_0000_0000
}

fn memory_region_path(process_id: u32, base_address: u64) -> (r: String)
    ensures
        r@ == "memory://process_"@ + decimal(process_id as nat) + "/region_"@ + hex_text(base_address as nat),
{
    let mut s = owned("memory://process_");
    let d = u64_to_string(process_id as u64);
    s.append(d.as_str());
    s.append("/region_");
    let h = to_hex_text(base_address);
    s.append(h.as_str());
    s
}

fn zeros_hash() -> (r: String)
    ensures
        crate::types::valid_hash(r@),
{
    let mut s = String::new();
    for i in 0..64usize
        invariant
            s@.len() == i,
            forall|k: int| 0 <= k < i ==> s@[k] == '0',
    {
        push_char(&mut s, '0');
    }
    s
}

impl MemoryScanner {
    /// Scans one region, unless it is larger than the limit: counts its
    /// bytes, counts it when executable, and matches the signatures.
    fn scan_memory_region(&self, process_id: u32, region: &MemoryRegion, result: &mut MemoryScanResult)
        requires
            region.base_address + region.size <= u64::MAX,
            old(result).scan_stats.bytes_scanned + region.size <= u64::MAX,
            old(result).scan_stats.executable_regions < u64::MAX,
            old(result).scan_stats.signature_matches + self.signatures().len() <= u64::MAX,
        ensures
            final(result).threats_found@.len() == old(result).threats_found@.len() + region_hits(self.signatures(), region.size as int, self.config().max_region_size as int),
            final(result).scan_stats.bytes_scanned == old(result).scan_stats.bytes_scanned + (if region.size <= self.config().max_region_size { region.size as int } else { 0 }),
            final(result).scan_stats.signature_matches == old(result).scan_stats.signature_matches + region_hits(self.signatures(), region.size as int, self.config().max_region_size as int),
            final(result).scan_stats.regions_scanned == old(result).scan_stats.regions_scanned,
            final(result).scan_stats.suspicious_regions == old(result).scan_stats.suspicious_regions,
            final(result).scan_stats.heuristic_detections == old(result).scan_stats.heuristic_detections,
            final(result).scan_stats.executable_regions <= old(result).scan_stats.executable_regions + 1,
            final(result).scan_stats.executable_regions >= old(result).scan_stats.executable_regions,
            final(result).process_id == old(result).process_id,
            final(result).process_name == old(result).process_name,
            final(result).rootkit_indicators == old(result).rootkit_indicators,
            final(result).scan_duration_ms == old(result).scan_duration_ms,
    {
        if region.size > self.config.max_region_size {
            return;
        }
        let data = self.read_process_memory(process_id, region.base_address, region.size);
        result.scan_stats.bytes_scanned = result.scan_stats.bytes_scanned + data.len() as u64;
        if region.protection == MemoryProtection::ExecuteRead || region.protection == MemoryProtection::ExecuteReadWrite
            || region.protection == MemoryProtection::ExecuteOnly {
            result.scan_stats.executable_regions = result.scan_stats.executable_regions + 1;
        }
        proof {
            lemma_hit_count_le(data@, self.signatures());
        }
        self.match_signatures(data.as_slice(), region, result);
    }

    /// Runs every rootkit detector, each at the current time, and records
    /// the indicators they report. Which detectors report depends on the
    /// clock; what is recorded is, after the indicators already there, the
    /// report of each detector that fired, in the detectors' order.
    fn detect_rootkit_indicators(&self, _process_id: u32, result: &mut MemoryScanResult)
        ensures
            exists|idx: Seq<int>| #[trigger] appended_reports(
                self.detectors(),
                old(result).rootkit_indicators@,
                final(result).rootkit_indicators@,
                idx,
            ),
            final(result).rootkit_indicators@.len() <= old(result).rootkit_indicators@.len() + self.detectors().len(),
            final(result).rootkit_indicators@.len() >= old(result).rootkit_indicators@.len(),
            final(result).threats_found == old(result).threats_found,
            final(result).scan_stats == old(result).scan_stats,
            final(result).process_id == old(result).process_id,
            final(result).process_name == old(result).process_name,
            final(result).scan_duration_ms == old(result).scan_duration_ms,
    {
        let n = self.rootkit_detectors.len();
        let ghost before = result.rootkit_indicators@;
        let ghost mut picked: Seq<int> = Seq::empty();
        proof {
            assert(before.subrange(0, before.len() as int) =~= before);
        }
        for i in 0..n
            invariant
                n == self.detectors().len(),
                before == old(result).rootkit_indicators@,
                appended_reports(self.detectors(), before, result.rootkit_indicators@, picked),
                forall|k: int| 0 <= k < picked.len() ==> #[trigger] picked[k] < i,
                result.rootkit_indicators@.len() <= old(result).rootkit_indicators@.len() + i,
                result.rootkit_indicators@.len() >= old(result).rootkit_indicators@.len(),
                result.threats_found == old(result).threats_found,
                result.scan_stats == old(result).scan_stats,
                result.process_id == old(result).process_id,
                result.process_name == old(result).process_name,
                result.scan_duration_ms == old(result).scan_duration_ms,
        {
            let now = crate::clock::now_secs();
            match self.run_rootkit_detector(&self.rootkit_detectors[i], now) {
                Some(indicator) => {
                    let ghost prev = result.rootkit_indicators@;
                    result.rootkit_indicators.push(indicator);
                    proof {
                        let after = result.rootkit_indicators@;
                        let idx = picked.push(i as int);
                        assert(after.subrange(0, before.len() as int) =~= prev.subrange(0, before.len() as int));
                        assert forall|k: int| 0 <= k < idx.len() implies reported_by(
                            after[before.len() + k],
                            self.detectors()[#[trigger] idx[k]],
                        ) by {
                            if k < picked.len() {
                                assert(idx[k] == picked[k]);
                                assert(after[before.len() + k] == prev[before.len() + k]);
                            }
                        }
                        assert forall|k1: int, k2: int| 0 <= k1 < k2 < idx.len() implies #[trigger] idx[k1]
                            < #[trigger] idx[k2] by {
                            if k2 < picked.len() {
                                assert(idx[k1] == picked[k1] && idx[k2] == picked[k2]);
                            } else {
                                assert(idx[k1] == picked[k1]);
                            }
                        }
                        picked = idx;
                    }
                },
                None => {},
            }
        }
        proof {
            assert(appended_reports(self.detectors(), before, result.rootkit_indicators@, picked));
        }
    }

    /// Records a heuristic threat for each suspicious region. The threat's
    /// hash is the region's address in hexadecimal, which the threat model
    /// refuses: the first suspicious region is counted and the analysis then
    /// fails with the error that building its threat gives.
    fn perform_heuristic_analysis(&self, process_id: u32, memory_regions: &Vec<MemoryRegion>, result: &mut MemoryScanResult) -> (r: Result<(), AntivirusError>)
        requires
            old(result).scan_stats.suspicious_regions + memory_regions@.len() <= u64::MAX,
            old(result).scan_stats.heuristic_detections + memory_regions@.len() <= u64::MAX,
        ensures
            (forall|i: int| 0 <= i < memory_regions@.len() ==> !suspicious_region(#[trigger] memory_regions@[i])) ==> (r is Ok
                && final(result).threats_found == old(result).threats_found && final(result).scan_stats == old(result).scan_stats),
            forall|k: int|
                0 <= k < memory_regions@.len() && suspicious_region(#[trigger] memory_regions@[k])
                    && (forall|j: int| 0 <= j < k ==> !suspicious_region(#[trigger] memory_regions@[j])) ==> {
                    &&& r matches Err(AntivirusError::Internal(m)) && threat_error(
                        "Suspicious Memory Region"@,
                        hex_text(memory_regions@[k].base_address as nat),
                    ) == Some(m@)
                    &&& final(result).threats_found == old(result).threats_found
                    &&& final(result).scan_stats.suspicious_regions == old(result).scan_stats.suspicious_regions + 1
                    &&& final(result).scan_stats.regions_scanned == old(result).scan_stats.regions_scanned
                    &&& final(result).scan_stats.bytes_scanned == old(result).scan_stats.bytes_scanned
                    &&& final(result).scan_stats.executable_regions == old(result).scan_stats.executable_regions
                    &&& final(result).scan_stats.signature_matches == old(result).scan_stats.signature_matches
                    &&& final(result).scan_stats.heuristic_detections == old(result).scan_stats.heuristic_detections
                },
            final(result).process_id == old(result).process_id,
            final(result).process_name == old(result).process_name,
            final(result).rootkit_indicators == old(result).rootkit_indicators,
            final(result).scan_duration_ms == old(result).scan_duration_ms,
    {
        let n = memory_regions.len();
        for i in 0..n
            invariant
                n == memory_regions@.len(),
                old(result).scan_stats.suspicious_regions + memory_regions@.len() <= u64::MAX,
                forall|j: int| 0 <= j < i ==> !suspicious_region(#[trigger] memory_regions@[j]),
                result.threats_found == old(result).threats_found,
                result.scan_stats == old(result).scan_stats,
                result.process_id == old(result).process_id,
                result.process_name == old(result).process_name,
                result.rootkit_indicators == old(result).rootkit_indicators,
                result.scan_duration_ms == old(result).scan_duration_ms,
        {
            let region = &memory_regions[i];
            if self.is_suspicious_memory_region(region) {
                result.scan_stats.suspicious_regions = result.scan_stats.suspicious_regions + 1;
                let path = memory_region_path(process_id, region.base_address);
                let hash = to_hex_text(region.base_address);
                proof {
                    lemma_address_hash_invalid(region.base_address);
                }
                let threat_info = match ThreatInfo::new(
                    owned("Suspicious Memory Region"),
                    ThreatType::Suspicious,
                    ThreatSeverity::Medium,
                    path,
                    hash,
                    DetectionMethod::Heuristic,
                ) {
                    Ok(t) => t,
                    Err(e) => {
                        proof {
                            assert forall|k: int|
                                0 <= k < memory_regions@.len() && suspicious_region(#[trigger] memory_regions@[k])
                                    && (forall|j: int| 0 <= j < k ==> !suspicious_region(#[trigger] memory_regions@[j]))
                                implies k == i by {
                                if k > i {
                                    assert(!suspicious_region(memory_regions@[i as int]));
                                }
                            }
                        }
                        return Err(e);
                    },
                };
                result.threats_found.push(MemoryThreat {
                    threat_info,
                    memory_address: region.base_address,
                    pattern_size: region.size,
                    memory_region: region.clone(),
                    confidence: CONFIDENCE_HEURISTIC,
                });
                result.scan_stats.heuristic_detections = result.scan_stats.heuristic_detections + 1;
            }
        }
        Ok(())
    }

    /// Scans a process's memory: its sample regions are matched against the
    /// signatures, then the rootkit detectors and the region heuristics run
    /// when enabled.
    pub fn scan_process_memory(&mut self, process_id: u32) -> (r: Result<MemoryScanResult, AntivirusError>)
        requires
            signatures_bounded(old(self).signatures()),
        ensures
            r matches Ok(res) && {
                &&& res.process_id == process_id
                &&& res.process_name@ == process_name_of(process_id)
                &&& res.scan_stats.regions_scanned == 3
                &&& res.scan_stats.bytes_scanned == process_bytes(old(self).config().max_region_size as int)
                &&& res.scan_stats.signature_matches == process_hits(old(self).signatures(), old(self).config().max_region_size as int)
                &&& res.threats_found@.len() == process_hits(old(self).signatures(), old(self).config().max_region_size as int)
                &&& res.scan_stats.suspicious_regions == 0
                &&& res.scan_stats.heuristic_detections == 0
                &&& (!old(self).config().enable_rootkit_detection ==> res.rootkit_indicators@.len() == 0)
            },
            final(self).known_processes().contains(process_id),
            final(self).signatures() == old(self).signatures(),
            final(self).detectors() == old(self).detectors(),
            final(self).config() == old(self).config(),
    {
        let start = now_millis();
        let process_name = self.get_or_create_process_handle(process_id);
        let mut result = MemoryScanResult {
            process_id,
            process_name,
            threats_found: Vec::new(),
            rootkit_indicators: Vec::new(),
            scan_stats: MemoryScanStats::default(),
            scan_duration_ms: 0,
        };
        let regions = self.enumerate_memory_regions(process_id);
        result.scan_stats.regions_scanned = regions.len() as u64;
        proof {
            lemma_hit_count_le(sample_memory(0x10_0000), self.signatures());
            lemma_hit_count_le(sample_memory(0x20_0000), self.signatures());
        }
        self.scan_memory_region(process_id, &regions[0], &mut result);
        self.scan_memory_region(process_id, &regions[1], &mut result);
        self.scan_memory_region(process_id, &regions[2], &mut result);
        if self.config.enable_rootkit_detection {
            self.detect_rootkit_indicators(process_id, &mut result);
        }
        if self.config.enable_heuristic_analysis {
            assert(!suspicious_region(regions@[0]));
            assert(!suspicious_region(regions@[1]));
            assert(!suspicious_region(regions@[2]));
            match self.perform_heuristic_analysis(process_id, &regions, &mut result) {
                Ok(()) => {},
                Err(e) => {
                    return Err(e);
                },
            }
        }
        let end = now_millis();
        let d: i128 = end as i128 - start as i128;
        result.scan_duration_ms = if d <= 0 {
            0
        } else if d > u64::MAX as i128 {
            u64::MAX
        } else {
            d as u64
        };
        Ok(result)
    }

    /// Scans every running process, keeping the results of the scans that
    /// succeed.
    pub fn scan_all_processes(&mut self) -> (r: Result<Vec<MemoryScanResult>, AntivirusError>)
        requires
            signatures_bounded(old(self).signatures()),
        ensures
            r matches Ok(v) && v@.len() == 5 && v@[0].process_id == 1234 && v@[1].process_id == 5678
                && v@[2].process_id == 9012 && v@[3].process_id == 3456 && v@[4].process_id == 7890,
    {
        let pids = self.enumerate_processes();
        let mut results: Vec<MemoryScanResult> = Vec::new();
        let n = pids.len();
        for i in 0..n
            invariant
                n == pids@.len(),
                pids@ == seq![1234u32, 5678, 9012, 3456, 7890],
                signatures_bounded(self.signatures()),
                results@.len() == i,
                forall|k: int| 0 <= k < i ==> (#[trigger] results@[k]).process_id == pids@[k],
        {
            match self.scan_process_memory(pids[i]) {
                Ok(res) => {
                    results.push(res);
                },
                Err(_) => {},
            }
        }
        Ok(results)
    }

    /// The memory scan as a file scan result: each memory threat, then a
    /// threat for each rootkit indicator; completed now.
    pub fn to_scan_result(&self, memory_result: MemoryScanResult) -> (r: ScanResult)
        ensures
            r.threats_found@.len() == memory_result.threats_found@.len() + memory_result.rootkit_indicators@.len(),
            r.scanned_files == memory_result.scan_stats.regions_scanned,
            r.status == crate::types::ScanStatus::Completed,
            r.end_time is Some,
    {
        let mut scan_result = ScanResult::new(crate::clock::new_id());
        let threats = memory_result.threats_found;
        let indicators = memory_result.rootkit_indicators;
        let nt = threats.len();
        let mut i: usize = 0;
        while i < nt
            invariant
                i <= nt,
                nt == threats@.len(),
                scan_result.threats_found@.len() == i,
            decreases nt - i,
        {
            scan_result.add_threat(threats[i].threat_info.clone());
            i = i + 1;
        }
        let ni = indicators.len();
        let mut j: usize = 0;
        while j < ni
            invariant
                j <= ni,
                ni == indicators@.len(),
                scan_result.threats_found@.len() == nt + j,
            decreases ni - j,
        {
            let indicator = &indicators[j];
            let mut name = owned("Rootkit: ");
            name.append(indicator.description.as_str());
            let mut path = owned("memory://process_");
            let d = u64_to_string(memory_result.process_id as u64);
            path.append(d.as_str());
            let address = match indicator.memory_address {
                Some(a) => a,
                None => 0,
            };
            let threat = match ThreatInfo::new(
                name,
                ThreatType::Rootkit,
                indicator.severity,
                path,
                to_hex_text(address),
                DetectionMethod::Behavioral,
            ) {
                Ok(t) => t,
                Err(_) => {
                    let fallback_name = owned("Rootkit Detection");
                    proof {
                        reveal_strlit("Rootkit Detection");
                        assert(crate::text::trim_start(fallback_name@) == fallback_name@);
                        assert(crate::text::trim_end(fallback_name@) == fallback_name@);
                    }
                    let fallback = ThreatInfo::new(
                        fallback_name,
                        ThreatType::Rootkit,
                        ThreatSeverity::High,
                        owned("memory://unknown"),
                        zeros_hash(),
                        DetectionMethod::Behavioral,
                    );
                    match fallback {
                        Ok(mut t) => {
                            t.add_info(owned("description"), indicator.description.clone());
                            t
                        },
                        Err(_) => {
                            proof {
                                assert(false);
                            }
                            unreached()
                        },
                    }
                },
            };
            scan_result.add_threat(threat);
            j = j + 1;
        }
        scan_result.scanned_files = memory_result.scan_stats.regions_scanned;
        scan_result.complete();
        scan_result
    }
}

} // verus!
