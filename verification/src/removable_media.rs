//! Removable media: which devices are scanned, which may be wiped, the
//! register of known devices, and the bookkeeping of a wipe.
use vstd::prelude::*;
use vstd::string::StringExecFns;
use crate::clock::now_millis;
use crate::error::AntivirusError;
use crate::file_utils::string_views;
use crate::memory_scanner::{hex_text, to_hex_text};
use crate::paths::{components, components_of, file_name, file_name_of, path_starts_with, paths_equal, same_path, starts_with_path, views};
use crate::ranking::{keyed_views, lemma_ranked_len, rank_descending, ranked};
use crate::text::{
    after_first_colon, field_after_colon, lines_of, lowercase, owned, parse_u64, push_char,
    seq_contains, seq_starts_with, str_contains, str_eq, str_starts_with, text_lines, text_views,
    to_lowercase, trim, trim_str, unsigned_text, words, words_of,
};
use crate::types::{update_due, whole_units, Timestamp, MS_PER_HOUR};

verus! {

/// Settings of removable media handling.
#[derive(Debug, Clone)]
pub struct RemovableMediaConfig {
    pub auto_scan_enabled: bool,
    pub scan_on_mount: bool,
    pub scan_timeout_minutes: u32,
    pub excluded_device_types: Vec<String>,
    pub max_device_size_gb: u64,
    pub scan_hidden_files: bool,
}

/// The default settings: scan on mount within 30 minutes, devices up to
/// 1000 GB, optical discs and hidden files skipped.
pub open spec fn is_default_media_config(c: RemovableMediaConfig) -> bool {
    &&& c.auto_scan_enabled
    &&& c.scan_on_mount
    &&& c.scan_timeout_minutes == 30
    &&& string_views(c.excluded_device_types@) == seq!["cdrom"@, "dvd"@]
    &&& c.max_device_size_gb == 1000
    &&& !c.scan_hidden_files
}

impl Default for RemovableMediaConfig {
    fn default() -> (r: Self)
        ensures
            is_default_media_config(r),
    {
        let mut excluded: Vec<String> = Vec::new();
        excluded.push(owned("cdrom"));
        excluded.push(owned("dvd"));
        assert(string_views(excluded@) =~= seq!["cdrom"@, "dvd"@]);
        RemovableMediaConfig {
            auto_scan_enabled: true,
            scan_on_mount: true,
            scan_timeout_minutes: 30,
            excluded_device_types: excluded,
            max_device_size_gb: 1000,
            scan_hidden_files: false,
        }
    }
}

/// A removable device that the system has mounted.
#[derive(Debug, Clone)]
pub struct RemovableDevice {
    pub device_id: String,
    pub mount_point: String,
    pub device_name: String,
    pub device_type: DeviceType,
    pub file_system: String,
    pub total_size_bytes: u64,
    pub free_space_bytes: u64,
    pub mount_time: Timestamp,
    pub last_scan_time: Option<Timestamp>,
    pub is_trusted: bool,
}

/// Types of removable devices
#[derive(Debug, Clone, Copy, PartialEq, Eq, Structural)]
pub enum DeviceType {
    UsbDrive,
    ExternalHdd,
    SdCard,
    CdRom,
    Dvd,
    NetworkDrive,
    Unknown,
}

/// The lowercased name of a device type, as its variant is written.
pub open spec fn type_key(t: DeviceType) -> Seq<char> {
    match t {
        DeviceType::UsbDrive => "usbdrive"@,
        DeviceType::ExternalHdd => "externalhdd"@,
        DeviceType::SdCard => "sdcard"@,
        DeviceType::CdRom => "cdrom"@,
        DeviceType::Dvd => "dvd"@,
        DeviceType::NetworkDrive => "networkdrive"@,
        DeviceType::Unknown => "unknown"@,
    }
}

impl DeviceType {
    /// The lowercased name of the type.
    pub fn key(&self) -> (r: &'static str)
        ensures
            r@ == type_key(*self),
    {
        match self {
            DeviceType::UsbDrive => "usbdrive",
            DeviceType::ExternalHdd => "externalhdd",
            DeviceType::SdCard => "sdcard",
            DeviceType::CdRom => "cdrom",
            DeviceType::Dvd => "dvd",
            DeviceType::NetworkDrive => "networkdrive",
            DeviceType::Unknown => "unknown",
        }
    }
}

/// Result of a device wipe operation
#[derive(Debug, Clone)]
pub struct WipeResult {
    pub device_id: String,
    pub device_name: String,
    pub stats: WipeStats,
    pub success: bool,
}

/// Statistics for wipe operation
#[derive(Debug, Clone)]
pub struct WipeStats {
    pub total_files: usize,
    pub deleted_files: usize,
    pub failed_files: usize,
    pub duration_ms: u64,
    pub errors: Vec<String>,
}

impl Default for WipeStats {
    fn default() -> (r: Self)
        ensures
            r.total_files == 0,
            r.deleted_files == 0,
            r.failed_files == 0,
            r.duration_ms == 0,
            r.errors@.len() == 0,
    {
        WipeStats { total_files: 0, deleted_files: 0, failed_files: 0, duration_ms: 0, errors: Vec::new() }
    }
}

impl WipeStats {
    /// Counts the outcome of one deletion: a deleted file, or a failure
    /// with its message.
    pub fn record(&mut self, file_path: &str, error: Option<&str>)
        requires
            old(self).deleted_files < usize::MAX,
            old(self).failed_files < usize::MAX,
        ensures
            error is None ==> final(self).deleted_files == old(self).deleted_files + 1
                && final(self).failed_files == old(self).failed_files && final(self).errors@ == old(self).errors@,
            error matches Some(e) ==> final(self).failed_files == old(self).failed_files + 1
                && final(self).deleted_files == old(self).deleted_files
                && final(self).errors@.len() == old(self).errors@.len() + 1
                && final(self).errors@.drop_last() == old(self).errors@
                && final(self).errors@.last()@ == "Failed to delete "@ + file_path@ + ": "@ + e@,
            final(self).total_files == old(self).total_files,
            final(self).duration_ms == old(self).duration_ms,
    {
        match error {
            None => {
                self.deleted_files = self.deleted_files + 1;
            },
            Some(e) => {
                self.failed_files = self.failed_files + 1;
                let mut m = owned("Failed to delete ");
                m.append(file_path);
                m.append(": ");
                m.append(e);
                self.errors.push(m);
            },
        }
    }
}

/// The mount points of system locations, which are never wiped.
pub open spec fn system_paths() -> Seq<Seq<char>> {
    seq![
        "/"@, "/usr"@, "/var"@, "/etc"@, "/boot"@, "/home"@, "/root"@, "c:\\"@, "c:\\windows"@,
        "c:\\program files"@, "c:\\users"@, "/system"@, "/applications"@, "/library"@,
    ]
}

/// The device may be wiped: its mount point, lowercased, is under no system
/// location, and it is a USB drive, SD card or external disk.
pub open spec fn wipeable(d: RemovableDevice) -> bool {
    &&& forall|k: int| 0 <= k < 14 ==> !seq_starts_with(lowercase(d.mount_point@), #[trigger] system_paths()[k])
    &&& (d.device_type == DeviceType::UsbDrive || d.device_type == DeviceType::SdCard || d.device_type
        == DeviceType::ExternalHdd)
}

/// The device is scanned at `now`: auto-scan is on, its type is not
/// excluded, it is within the size limit, not trusted, and not scanned in
/// the last 24 whole hours.
pub open spec fn scan_wanted_at(c: RemovableMediaConfig, d: RemovableDevice, now: Timestamp) -> bool {
    &&& c.auto_scan_enabled
    &&& !string_views(c.excluded_device_types@).contains(type_key(d.device_type))
    &&& d.total_size_bytes / 1073741824u64 <= c.max_device_size_gb
    &&& !d.is_trusted
    &&& match d.last_scan_time {
        Some(t) => whole_units(now - t, MS_PER_HOUR as int) >= 24,
        None => true,
    }
}

/// The devices that the detector knows, identified by their identifiers.
pub struct RemovableMediaDetector {
    config: RemovableMediaConfig,
    known_devices: Vec<RemovableDevice>,
    last_scan_time: Option<Timestamp>,
}

/// The index of the device with the identifier, if known.
pub open spec fn device_index(v: Seq<RemovableDevice>, id: Seq<char>) -> Option<int> {
    if exists|i: int| 0 <= i < v.len() && (#[trigger] v[i]).device_id@ == id {
        Some(choose|i: int| 0 <= i < v.len() && (#[trigger] v[i]).device_id@ == id)
    } else {
        None
    }
}

/// No identifier occurs twice.
pub open spec fn ids_distinct(v: Seq<RemovableDevice>) -> bool {
    forall|i: int, j: int| 0 <= i < j < v.len() ==> (#[trigger] v[i]).device_id@ != (#[trigger] v[j]).device_id@
}

/// The known device with the identifier, if any.
pub open spec fn device_of(v: Seq<RemovableDevice>, id: Seq<char>) -> Option<RemovableDevice> {
    match device_index(v, id) {
        Some(i) => Some(v[i]),
        None => None,
    }
}

proof fn lemma_index_of(v: Seq<RemovableDevice>, k: int)
    requires
        ids_distinct(v),
        0 <= k < v.len(),
    ensures
        device_index(v, v[k].device_id@) == Some(k),
        device_of(v, v[k].device_id@) == Some(v[k]),
{
    let id = v[k].device_id@;
    let j = choose|j: int| 0 <= j < v.len() && (#[trigger] v[j]).device_id@ == id;
    if j < k {
        assert(v[j].device_id@ != v[k].device_id@);
    } else if j > k {
        assert(v[k].device_id@ != v[j].device_id@);
    }
}

/// The device registered under `id` after the devices `added` were
/// registered in turn over `old`.
pub open spec fn registered(old: Seq<RemovableDevice>, added: Seq<RemovableDevice>, id: Seq<char>) -> Option<RemovableDevice>
    decreases added.len(),
{
    if added.len() == 0 {
        device_of(old, id)
    } else if added.last().device_id@ == id {
        Some(added.last())
    } else {
        registered(old, added.drop_last(), id)
    }
}

/// The devices `after` are `before` with the device `device_id`, if known,
/// marked as scanned at `now`.
pub open spec fn rescanned(before: Seq<RemovableDevice>, after: Seq<RemovableDevice>, device_id: Seq<char>, now: Timestamp) -> bool {
    forall|id: Seq<char>| #[trigger] device_of(after, id) == (if id == device_id {
        match device_of(before, id) {
            Some(d) => Some(RemovableDevice { last_scan_time: Some(now), ..d }),
            None => None,
        }
    } else {
        device_of(before, id)
    })
}

fn list_has(v: &Vec<String>, s: &str) -> (r: bool)
    ensures
        r == string_views(v@).contains(s@),
{
    let mut i: usize = 0;
    while i < v.len()
        invariant
            i <= v@.len(),
            forall|j: int| 0 <= j < i ==> v@[j]@ != s@,
        decreases v@.len() - i,
    {
        if str_eq(v[i].as_str(), s) {
            assert(string_views(v@)[i as int] == s@);
            return true;
        }
        i = i + 1;
    }
    proof {
        if string_views(v@).contains(s@) {
            let k = choose|k: int| 0 <= k < string_views(v@).len() && string_views(v@)[k] == s@;
            assert(v@[k]@ == s@);
        }
    }
    false
}

impl RemovableMediaDetector {
    /// A detector with the default settings and no known device.
    pub fn new() -> (r: Self)
        ensures
            r.wf(),
            r.devices().len() == 0,
            is_default_media_config(r.config()),
    {
        RemovableMediaDetector { config: RemovableMediaConfig::default(), known_devices: Vec::new(), last_scan_time: None }
    }

    /// A detector with the given settings and no known device.
    pub fn with_config(config: RemovableMediaConfig) -> (r: Self)
        ensures
            r.wf(),
            r.devices().len() == 0,
            r.config() == config,
    {
        RemovableMediaDetector { config, known_devices: Vec::new(), last_scan_time: None }
    }

    /// The known devices.
    pub closed spec fn devices(&self) -> Seq<RemovableDevice> {
        self.known_devices@
    }

    /// The settings.
    pub closed spec fn config(&self) -> RemovableMediaConfig {
        self.config
    }

    /// The known devices are told apart by their identifiers.
    pub closed spec fn wf(&self) -> bool {
        ids_distinct(self.known_devices@)
    }

    /// The known devices.
    pub fn get_known_devices(&self) -> (r: Vec<&RemovableDevice>)
        ensures
            r@.len() == self.devices().len(),
            forall|i: int| 0 <= i < r@.len() ==> *r@[i] == self.devices()[i],
    {
        let mut r: Vec<&RemovableDevice> = Vec::new();
        let n = self.known_devices.len();
        for i in 0..n
            invariant
                n == self.known_devices@.len(),
                r@.len() == i,
                forall|k: int| 0 <= k < i ==> *r@[k] == self.known_devices@[k],
        {
            r.push(&self.known_devices[i]);
        }
        r
    }

    /// Registers the device under its identifier, replacing the device
    /// known under it, as a map insertion does.
    pub fn insert_device(&mut self, device: RemovableDevice)
        requires
            old(self).wf(),
        ensures
            final(self).wf(),
            forall|id: Seq<char>| #[trigger] device_of(final(self).devices(), id) == (if id == device.device_id@ {
                Some(device)
            } else {
                device_of(old(self).devices(), id)
            }),
            final(self).config() == old(self).config(),
    {
        let ghost before = self.known_devices@;
        let ghost did = device.device_id@;
        let mut i: usize = 0;
        while i < self.known_devices.len()
            invariant
                i <= self.known_devices@.len(),
                self.known_devices@ == before,
                before == old(self).known_devices@,
                self.config == old(self).config,
                ids_distinct(before),
                did == device.device_id@,
                forall|k: int| 0 <= k < i ==> (#[trigger] before[k]).device_id@ != did,
            decreases self.known_devices@.len() - i,
        {
            if str_eq(self.known_devices[i].device_id.as_str(), device.device_id.as_str()) {
                self.known_devices.set(i, device);
                proof {
                    let after = self.known_devices@;
                    assert(after == before.update(i as int, after[i as int]));
                    assert forall|a: int, b: int| 0 <= a < b < after.len() implies
                        (#[trigger] after[a]).device_id@ != (#[trigger] after[b]).device_id@ by {
                        assert(before[a].device_id@ != before[b].device_id@);
                    }
                    lemma_index_of(after, i as int);
                    assert forall|id: Seq<char>| #[trigger] device_of(after, id) == (if id == did {
                        Some(after[i as int])
                    } else {
                        device_of(before, id)
                    }) by {
                        if id != did {
                            if exists|k: int| 0 <= k < before.len() && (#[trigger] before[k]).device_id@ == id {
                                let k = choose|k: int| 0 <= k < before.len() && (#[trigger] before[k]).device_id@ == id;
                                assert(k != i);
                                assert(after[k] == before[k]);
                                lemma_index_of(before, k);
                                lemma_index_of(after, k);
                            } else {
                                assert forall|k: int| 0 <= k < after.len() implies (#[trigger] after[k]).device_id@ != id by {
                                    if k != i {
                                        assert(after[k] == before[k]);
                                    }
                                }
                            }
                        }
                    }
                }
                return;
            }
            i = i + 1;
        }
        self.known_devices.push(device);
        proof {
            let after = self.known_devices@;
            let n = before.len() as int;
            assert(after == before.push(after[n]));
            assert forall|a: int, b: int| 0 <= a < b < after.len() implies
                (#[trigger] after[a]).device_id@ != (#[trigger] after[b]).device_id@ by {
                if b < n {
                    assert(before[a].device_id@ != before[b].device_id@);
                } else {
                    assert(before[a].device_id@ != did);
                }
            }
            lemma_index_of(after, n);
            assert forall|id: Seq<char>| #[trigger] device_of(after, id) == (if id == did {
                Some(after[n])
            } else {
                device_of(before, id)
            }) by {
                if id != did {
                    if exists|k: int| 0 <= k < before.len() && (#[trigger] before[k]).device_id@ == id {
                        let k = choose|k: int| 0 <= k < before.len() && (#[trigger] before[k]).device_id@ == id;
                        assert(after[k] == before[k]);
                        lemma_index_of(before, k);
                        lemma_index_of(after, k);
                    } else {
                        assert forall|k: int| 0 <= k < after.len() implies (#[trigger] after[k]).device_id@ != id by {
                            if k < n {
                                assert(after[k] == before[k]);
                            }
                        }
                    }
                }
            }
        }
    }

    /// Registers each detected device in turn under its identifier.
    pub fn record_detected_devices(&mut self, devices: &[RemovableDevice])
        requires
            old(self).wf(),
        ensures
            final(self).wf(),
            forall|id: Seq<char>| #[trigger] device_of(final(self).devices(), id) == registered(old(self).devices(), devices@, id),
            final(self).config() == old(self).config(),
    {
        let n = devices.len();
        for i in 0..n
            invariant
                n == devices@.len(),
                self.wf(),
                self.config() == old(self).config(),
                forall|id: Seq<char>| #[trigger] device_of(self.devices(), id) == registered(old(self).devices(), devices@.take(i as int), id),
        {
            assert(devices@.take(i + 1).drop_last() =~= devices@.take(i as int));
            self.insert_device(devices[i].clone_device());
        }
        assert(devices@.take(n as int) =~= devices@);
    }

    /// Records that the known device was scanned at `now`; an unknown
    /// identifier changes nothing.
    pub fn update_device_scan_time_at(&mut self, device_id: &str, now: Timestamp)
        requires
            old(self).wf(),
        ensures
            final(self).wf(),
            rescanned(old(self).devices(), final(self).devices(), device_id@, now),
            final(self).config() == old(self).config(),
    {
        let mut i: usize = 0;
        while i < self.known_devices.len()
            invariant
                i <= self.known_devices@.len(),
                self.known_devices@ == old(self).known_devices@,
                self.config == old(self).config,
                ids_distinct(self.known_devices@),
                forall|k: int| 0 <= k < i ==> (#[trigger] self.known_devices@[k]).device_id@ != device_id@,
            decreases self.known_devices@.len() - i,
        {
            if str_eq(self.known_devices[i].device_id.as_str(), device_id) {
                proof {
                    lemma_index_of(self.known_devices@, i as int);
                }
                let mut d = self.known_devices[i].clone_device();
                d.last_scan_time = Some(now);
                self.insert_device(d);
                return;
            }
            i = i + 1;
        }
    }

    /// Records that the known device was scanned now.
    pub fn update_device_scan_time(&mut self, device_id: &str)
        requires
            old(self).wf(),
        ensures
            final(self).wf(),
            exists|now: Timestamp| #[trigger] rescanned(old(self).devices(), final(self).devices(), device_id@, now),
            final(self).config() == old(self).config(),
    {
        let now = now_millis();
        self.update_device_scan_time_at(device_id, now);
    }

    /// Whether the device is scanned at the time `now`.
    pub fn should_scan_device_at(&self, device: &RemovableDevice, now: Timestamp) -> (r: bool)
        ensures
            r == scan_wanted_at(self.config(), *device, now),
    {
        if !self.config.auto_scan_enabled {
            return false;
        }
        if list_has(&self.config.excluded_device_types, device.device_type.key()) {
            return false;
        }
        let size_gb = device.total_size_bytes / (1024 * 1024 * 1024);
        if size_gb > self.config.max_device_size_gb {
            return false;
        }
        if device.is_trusted {
            return false;
        }
        match device.last_scan_time {
            Some(t) => {
                let d: i128 = now as i128 - t as i128;
                let hours: i128 = if d >= 0 { d / 3_600_000 } else { -((-d) / 3_600_000) };
                if hours < 24 {
                    return false;
                }
            },
            None => {},
        }
        true
    }

    /// Whether the device is scanned now.
    pub fn should_scan_device(&self, device: &RemovableDevice) -> (r: bool)
        ensures
            exists|now: Timestamp| r == #[trigger] scan_wanted_at(self.config(), *device, now),
    {
        self.should_scan_device_at(device, now_millis())
    }

    /// Marks the known device as trusted or not; an unknown identifier is
    /// refused.
    pub fn mark_device_trusted(&mut self, device_id: &str, trusted: bool) -> (r: Result<(), AntivirusError>)
        requires
            old(self).wf(),
        ensures
            final(self).wf(),
            r is Ok <==> device_index(old(self).devices(), device_id@) is Some,
            r matches Err(AntivirusError::Internal(m)) ==> m@ == "Device not found: "@ + device_id@,
            r is Ok ==> final(self).devices().len() == old(self).devices().len() && {
                let i = device_index(old(self).devices(), device_id@)->0;
                &&& final(self).devices()[i] == (RemovableDevice { is_trusted: trusted, ..old(self).devices()[i] })
                &&& forall|j: int| 0 <= j < old(self).devices().len() && j != i ==> #[trigger] final(self).devices()[j] == old(self).devices()[j]
            },
            r is Err ==> final(self).devices() == old(self).devices(),
            final(self).config() == old(self).config(),
    {
        let mut i: usize = 0;
        while i < self.known_devices.len()
            invariant
                i <= self.known_devices@.len(),
                self.known_devices@ == old(self).known_devices@,
                self.config == old(self).config,
                ids_distinct(self.known_devices@),
                forall|k: int| 0 <= k < i ==> (#[trigger] self.known_devices@[k]).device_id@ != device_id@,
            decreases self.known_devices@.len() - i,
        {
            if str_eq(self.known_devices[i].device_id.as_str(), device_id) {
                let ghost before = self.known_devices@;
                proof {
                    let j = choose|j: int| 0 <= j < before.len() && (#[trigger] before[j]).device_id@ == device_id@;
                    if j != i {
                        if j < i {
                            assert(before[j].device_id@ != device_id@);
                        } else {
                            assert(before[i as int].device_id@ != before[j].device_id@);
                        }
                    }
                }
                let mut d = self.known_devices.remove(i);
                d.is_trusted = trusted;
                self.known_devices.insert(i, d);
                proof {
                    assert(self.known_devices@ =~= before.update(i as int, self.known_devices@[i as int]));
                    assert forall|a: int, b: int| 0 <= a < b < self.known_devices@.len() implies
                        (#[trigger] self.known_devices@[a]).device_id@ != (#[trigger] self.known_devices@[b]).device_id@ by {
                        assert(before[a].device_id@ != before[b].device_id@);
                    }
                }
                return Ok(());
            }
            i = i + 1;
        }
        let mut m = owned("Device not found: ");
        m.append(device_id);
        Err(AntivirusError::Internal(m))
    }

    /// The paths scanned on a device: its mount point.
    pub fn get_device_scan_paths(&self, device: &RemovableDevice) -> (r: Vec<String>)
        ensures
            r@.len() == 1,
            r@[0] == device.mount_point,
    {
        let mut v: Vec<String> = Vec::new();
        v.push(device.mount_point.clone());
        v
    }

    /// Whether the device may be wiped.
    pub fn is_removable_device(&self, device: &RemovableDevice) -> (r: bool)
        ensures
            r == wipeable(*device),
    {
        let mount = to_lowercase(device.mount_point.as_str());
        let sys: [&str; 14] = [
            "/", "/usr", "/var", "/etc", "/boot", "/home", "/root", "c:\\", "c:\\windows",
            "c:\\program files", "c:\\users", "/system", "/applications", "/library",
        ];
        assert(forall|k: int| 0 <= k < 14 ==> (#[trigger] sys@[k])@ == system_paths()[k]);
        let mut k: usize = 0;
        while k < 14
            invariant
                k <= 14,
                mount@ == lowercase(device.mount_point@),
                forall|j: int| 0 <= j < 14 ==> (#[trigger] sys@[j])@ == system_paths()[j],
                forall|j: int| 0 <= j < k ==> !seq_starts_with(mount@, #[trigger] system_paths()[j]),
            decreases 14 - k,
        {
            if str_starts_with(mount.as_str(), sys[k]) {
                return false;
            }
            k = k + 1;
        }
        match device.device_type {
            DeviceType::UsbDrive | DeviceType::SdCard | DeviceType::ExternalHdd => true,
            _ => false,
        }
    }

    /// The directories that a wipe tries to remove, deepest first, leaving
    /// out the mount point itself.
    pub fn removable_directories(&self, dirs: &[String], root: &str) -> (r: Vec<String>)
        ensures
            text_views(r@) == without_path(deepest_first_order(dirs@), root@),
    {
        let ordered = deepest_first(dirs);
        let mut r: Vec<String> = Vec::new();
        let n = ordered.len();
        let ghost all = text_views(ordered@);
        assert(all.take(0) =~= Seq::<Seq<char>>::empty());
        for i in 0..n
            invariant
                n == ordered@.len(),
                all == text_views(ordered@),
                text_views(r@) == without_path(all.take(i as int), root@),
        {
            assert(all.take(i + 1).drop_last() =~= all.take(i as int));
            assert(all.take(i + 1).last() == ordered@[i as int]@);
            if !paths_equal(ordered[i].as_str(), root) {
                let ghost before = text_views(r@);
                r.push(ordered[i].clone());
                assert(text_views(r@) =~= before.push(ordered@[i as int]@));
            }
        }
        assert(all.take(n as int) =~= all);
        r
    }


    /// The device that a wipe of `device_id` works on: it must be known and
    /// wipeable.
    pub fn wipe_target(&self, device_id: &str) -> (r: Result<RemovableDevice, AntivirusError>)
        requires
            self.wf(),
        ensures
            device_index(self.devices(), device_id@) is None ==> (r matches Err(AntivirusError::Internal(m))
                && m@ == "Device not found: "@ + device_id@),
            device_index(self.devices(), device_id@) matches Some(i) ==> {
                let d = self.devices()[i];
                &&& (wipeable(d) ==> r == Ok::<RemovableDevice, AntivirusError>(d))
                &&& (!wipeable(d) ==> (r matches Err(AntivirusError::Internal(m))
                    && m@ == "Cannot wipe non-removable device for safety reasons"@))
            },
    {
        let mut i: usize = 0;
        while i < self.known_devices.len()
            invariant
                i <= self.known_devices@.len(),
                ids_distinct(self.known_devices@),
                forall|k: int| 0 <= k < i ==> (#[trigger] self.known_devices@[k]).device_id@ != device_id@,
            decreases self.known_devices@.len() - i,
        {
            if str_eq(self.known_devices[i].device_id.as_str(), device_id) {
                proof {
                    let j = choose|j: int| 0 <= j < self.known_devices@.len() && (#[trigger] self.known_devices@[j]).device_id@ == device_id@;
                    if j != i {
                        if j < i {
                            assert(self.known_devices@[j].device_id@ != device_id@);
                        } else {
                            assert(self.known_devices@[i as int].device_id@ != self.known_devices@[j].device_id@);
                        }
                    }
                }
                let d = &self.known_devices[i];
                if !self.is_removable_device(d) {
                    return Err(AntivirusError::Internal(owned("Cannot wipe non-removable device for safety reasons")));
                }
                return Ok(d.clone_device());
            }
            i = i + 1;
        }
        let mut m = owned("Device not found: ");
        m.append(device_id);
        Err(AntivirusError::Internal(m))
    }
}

/// The number that `str::parse::<u64>` reads from `t`, or 0 when it reads
/// none.
pub open spec fn number_or_zero(t: Seq<char>) -> u64 {
    match unsigned_text(t) {
        Some(v) => if v <= u64::MAX { v as u64 } else { 0 },
        None => 0,
    }
}

fn parse_or_zero(t: &str) -> (r: u64)
    ensures
        r == number_or_zero(t@),
{
    match parse_u64(t) {
        Some(v) => v,
        None => 0,
    }
}

/// The name of the directory or file that a path ends in, or `Unknown`.
pub open spec fn name_of_path(p: Seq<char>) -> Seq<char> {
    match file_name(p) {
        Some(n) => n,
        None => "Unknown"@,
    }
}

fn device_name_of(p: &str) -> (r: String)
    ensures
        r@ == name_of_path(p@),
{
    match file_name_of(p) {
        Some(n) => n,
        None => owned("Unknown"),
    }
}

/// A line of the mount table names a removable device: a `/dev/sd`
/// device mounted under `/media` or `/mnt`.
pub open spec fn removable_mount(w: Seq<Seq<char>>) -> bool {
    &&& w.len() >= 3
    &&& seq_starts_with(w[0], "/dev/sd"@)
    &&& (path_starts_with(w[1], "/media"@) || path_starts_with(w[1], "/mnt"@))
}

/// The words of the mount table lines that name removable devices, in
/// order.
pub open spec fn removable_mounts(lines: Seq<Seq<char>>) -> Seq<Seq<Seq<char>>>
    decreases lines.len(),
{
    if lines.len() == 0 {
        Seq::empty()
    } else if removable_mount(words(lines.last())) {
        removable_mounts(lines.drop_last()).push(words(lines.last()))
    } else {
        removable_mounts(lines.drop_last())
    }
}

/// The device that a mount table line describes, seen at `now`.
pub open spec fn mounted_device(d: RemovableDevice, w: Seq<Seq<char>>, now: Timestamp) -> bool {
    &&& d.device_id@ == w[0]
    &&& d.mount_point@ == w[1]
    &&& d.device_name@ == name_of_path(w[1])
    &&& d.device_type == DeviceType::UsbDrive
    &&& d.file_system@ == w[2]
    &&& d.total_size_bytes == 0
    &&& d.free_space_bytes == 0
    &&& d.mount_time == now
    &&& d.last_scan_time is None
    &&& !d.is_trusted
}

/// The lines after the first `k`.
pub open spec fn after_lines(l: Seq<Seq<char>>, k: int) -> Seq<Seq<char>> {
    if l.len() <= k { Seq::empty() } else { l.skip(k) }
}

/// The words of the drive listing rows that describe a drive: five fields
/// or more.
pub open spec fn drive_rows(lines: Seq<Seq<char>>) -> Seq<Seq<Seq<char>>>
    decreases lines.len(),
{
    if lines.len() == 0 {
        Seq::empty()
    } else if words(lines.last()).len() >= 5 {
        drive_rows(lines.drop_last()).push(words(lines.last()))
    } else {
        drive_rows(lines.drop_last())
    }
}

/// The drive that a row of the listing describes (identifier, volume name,
/// size, free space, file system), seen at `now`.
pub open spec fn listed_drive(d: RemovableDevice, w: Seq<Seq<char>>, now: Timestamp) -> bool {
    &&& d.device_id@ == w[0]
    &&& d.mount_point@ == w[0]
    &&& d.device_name@ == (if w[1].len() > 0 { w[1] } else { w[0] })
    &&& d.device_type == DeviceType::UsbDrive
    &&& d.file_system@ == w[4]
    &&& d.total_size_bytes == number_or_zero(w[2])
    &&& d.free_space_bytes == number_or_zero(w[3])
    &&& d.mount_time == now
    &&& d.last_scan_time is None
    &&& !d.is_trusted
}

/// A count of kibibytes in bytes, as a release build multiplies it.
pub open spec fn kib_bytes(k: u64) -> u64 {
    ((k as nat * 1024) % 0x1_0000_0000_0000_0000) as u64
}

/// Total and available bytes from the output of `df -k`: the second and
/// fourth fields of its second line, in kibibytes; zeros when the output is
/// missing or short.
pub open spec fn df_sizes(out: Option<Seq<char>>) -> (u64, u64) {
    match out {
        Some(o) => {
            let ls = text_lines(o);
            if ls.len() >= 2 && words(ls[1]).len() >= 4 {
                (kib_bytes(number_or_zero(words(ls[1])[1])), kib_bytes(number_or_zero(words(ls[1])[3])))
            } else {
                (0, 0)
            }
        },
        None => (0, 0),
    }
}

/// A line of `diskutil info` that names the file system.
pub open spec fn personality_line(l: Seq<char>) -> bool {
    seq_contains(l, "File System Personality:"@) || seq_contains(l, "Type (Bundle):"@)
}

/// The file system named by the first such line whose field, trimmed, is
/// neither empty nor `Unknown`.
pub open spec fn personality(lines: Seq<Seq<char>>) -> Option<Seq<char>>
    decreases lines.len(),
{
    if lines.len() == 0 {
        None
    } else if personality_line(lines[0]) && after_first_colon(lines[0]) is Some && trim(
        after_first_colon(lines[0])->0,
    ).len() > 0 && trim(after_first_colon(lines[0])->0) != "Unknown"@ {
        Some(trim(after_first_colon(lines[0])->0))
    } else {
        personality(lines.drop_first())
    }
}

/// The file system that the words of a `diskutil info` output suggest.
pub open spec fn fs_fallback(o: Seq<char>) -> Seq<char> {
    if seq_contains(o, "FAT32"@) || seq_contains(o, "MS-DOS FAT32"@) {
        "FAT32"@
    } else if seq_contains(o, "ExFAT"@) || seq_contains(o, "MS-DOS ExFAT"@) {
        "exFAT"@
    } else if seq_contains(o, "NTFS"@) {
        "NTFS"@
    } else if seq_contains(o, "HFS+"@) || seq_contains(o, "Mac OS Extended"@) {
        "HFS+"@
    } else if seq_contains(o, "APFS"@) {
        "APFS"@
    } else {
        "unknown"@
    }
}

/// The file system of a volume from its `diskutil info` output.
pub open spec fn fs_type(out: Option<Seq<char>>) -> Seq<char> {
    match out {
        None => "unknown"@,
        Some(o) => match personality(text_lines(o)) {
            Some(f) => f,
            None => fs_fallback(o),
        },
    }
}

/// The device type that a volume's path, lowercased, suggests.
pub open spec fn type_by_name(path: Seq<char>) -> DeviceType {
    let l = lowercase(path);
    if seq_contains(l, "usb"@) || seq_contains(l, "flash"@) || seq_contains(l, "thumb"@) {
        DeviceType::UsbDrive
    } else if seq_contains(l, "sd"@) || seq_contains(l, "card"@) {
        DeviceType::SdCard
    } else if seq_contains(l, "external"@) || seq_contains(l, "backup"@) || seq_contains(l, "disk"@) {
        DeviceType::ExternalHdd
    } else {
        DeviceType::Unknown
    }
}

/// The device type of a volume from its `diskutil info` output, lowercased,
/// or else from its path.
pub open spec fn macos_device_type(out: Option<Seq<char>>, path: Seq<char>) -> DeviceType {
    match out {
        Some(o) => {
            let l = lowercase(o);
            if seq_contains(l, "usb"@) || seq_contains(l, "usb 2.0"@) || seq_contains(l, "usb 3.0"@) {
                if seq_contains(l, "sd"@) || seq_contains(l, "card"@) {
                    DeviceType::SdCard
                } else if seq_contains(l, "flash"@) || seq_contains(l, "thumb"@) {
                    DeviceType::UsbDrive
                } else {
                    DeviceType::ExternalHdd
                }
            } else if seq_contains(l, "firewire"@) || seq_contains(l, "thunderbolt"@) {
                DeviceType::ExternalHdd
            } else {
                type_by_name(path)
            }
        },
        None => type_by_name(path),
    }
}

/// Whether a volume is external, from its `diskutil info` output, or else
/// from its path, lowercased.
pub open spec fn external_volume(out: Option<Seq<char>>, path: Seq<char>) -> bool {
    match out {
        Some(o) => (seq_contains(o, "External:"@) && seq_contains(o, "External: Yes"@)) || (seq_contains(
            o,
            "Removable Media:"@,
        ) && seq_contains(o, "Removable Media: Yes"@)) || (seq_contains(o, "Protocol:"@) && (
        seq_contains(o, "USB"@) || seq_contains(o, "FireWire"@) || seq_contains(o, "Thunderbolt"@))),
        None => {
            let l = lowercase(path);
            seq_contains(l, "usb"@) || seq_contains(l, "external"@) || seq_contains(l, "sd"@)
                || seq_contains(l, "flash"@) || seq_contains(l, "thumb"@)
        },
    }
}

/// A volume of the system rather than a device: hidden, or one of the
/// system's own.
pub open spec fn system_volume(name: Seq<char>) -> bool {
    seq_starts_with(name, "."@) || name == "Macintosh HD"@ || name == "Preboot"@ || name == "Recovery"@
        || name == "VM"@ || name == "Data"@
}

/// A name with its spaces replaced by underscores.
pub open spec fn with_underscores(s: Seq<char>) -> Seq<char> {
    Seq::new(s.len(), |i: int| if s[i] == ' ' { '_' } else { s[i] })
}

/// The identifier of a volume: `usb_` and its name with underscores,
/// lowercased, or, for an unnamed volume, the low 16 bits of its path's
/// hash in hexadecimal.
pub open spec fn macos_device_id(name: Seq<char>, path_hash: u64) -> Seq<char> {
    let clean = lowercase(with_underscores(name));
    if clean == "no_name"@ || clean.len() == 0 {
        "usb_"@ + hex_text((path_hash % 0x10000) as nat)
    } else {
        "usb_"@ + clean
    }
}

fn replace_spaces(s: &str) -> (r: String)
    ensures
        r@ == with_underscores(s@),
{
    let v = crate::text::chars_of(s);
    let mut r = String::new();
    let n = v.len();
    for i in 0..n
        invariant
            n == v@.len(),
            v@ == s@,
            r@ == with_underscores(v@.take(i as int)),
    {
        let c = v[i];
        push_char(&mut r, if c == ' ' { '_' } else { c });
        assert(r@ =~= with_underscores(v@.take(i + 1)));
    }
    assert(v@.take(n as int) =~= v@);
    r
}

fn contains_any(hay: &str, needles: &[&str]) -> (r: bool)
    ensures
        r == exists|k: int| 0 <= k < needles@.len() && seq_contains(hay@, #[trigger] needles@[k]@),
{
    let mut k: usize = 0;
    while k < needles.len()
        invariant
            k <= needles@.len(),
            forall|j: int| 0 <= j < k ==> !seq_contains(hay@, #[trigger] needles@[j]@),
        decreases needles@.len() - k,
    {
        if str_contains(hay, needles[k]) {
            return true;
        }
        k = k + 1;
    }
    false
}

fn type_from_name(path: &str) -> (r: DeviceType)
    ensures
        r == type_by_name(path@),
{
    let l = to_lowercase(path);
    let a: [&str; 3] = ["usb", "flash", "thumb"];
    let b: [&str; 2] = ["sd", "card"];
    let c: [&str; 3] = ["external", "backup", "disk"];
    if contains_any(l.as_str(), &a) {
        assert(a@[0]@ == "usb"@ && a@[1]@ == "flash"@ && a@[2]@ == "thumb"@);
        DeviceType::UsbDrive
    } else if contains_any(l.as_str(), &b) {
        assert(a@[0]@ == "usb"@ && a@[1]@ == "flash"@ && a@[2]@ == "thumb"@);
        assert(b@[0]@ == "sd"@ && b@[1]@ == "card"@);
        DeviceType::SdCard
    } else if contains_any(l.as_str(), &c) {
        assert(a@[0]@ == "usb"@ && a@[1]@ == "flash"@ && a@[2]@ == "thumb"@);
        assert(b@[0]@ == "sd"@ && b@[1]@ == "card"@);
        assert(c@[0]@ == "external"@ && c@[1]@ == "backup"@ && c@[2]@ == "disk"@);
        DeviceType::ExternalHdd
    } else {
        assert(a@[0]@ == "usb"@ && a@[1]@ == "flash"@ && a@[2]@ == "thumb"@);
        assert(b@[0]@ == "sd"@ && b@[1]@ == "card"@);
        assert(c@[0]@ == "external"@ && c@[1]@ == "backup"@ && c@[2]@ == "disk"@);
        DeviceType::Unknown
    }
}

impl RemovableMediaDetector {
    /// The removable devices that the mount table lists, seen at `now`: one
    /// for each line naming a `/dev/sd` device mounted under `/media` or
    /// `/mnt`, in order.
    pub fn parse_linux_mounts(&self, mounts: &str, now: Timestamp) -> (r: Result<Vec<RemovableDevice>, AntivirusError>)
        ensures
            r matches Ok(v) && v@.len() == removable_mounts(text_lines(mounts@)).len() && forall|i: int|
                0 <= i < v@.len() ==> mounted_device(#[trigger] v@[i], removable_mounts(text_lines(mounts@))[i], now),
    {
        let lines = lines_of(mounts);
        let mut out: Vec<RemovableDevice> = Vec::new();
        let n = lines.len();
        for i in 0..n
            invariant
                n == lines@.len(),
                text_views(lines@) == text_lines(mounts@),
                out@.len() == removable_mounts(text_views(lines@).take(i as int)).len(),
                forall|k: int| 0 <= k < out@.len() ==> mounted_device(#[trigger] out@[k], removable_mounts(text_views(lines@).take(i as int))[k], now),
        {
            let ghost ls = text_views(lines@);
            assert(ls.take(i + 1).drop_last() =~= ls.take(i as int));
            assert(ls.take(i + 1).last() == lines@[i as int]@);
            let w = words_of(lines[i].as_str());
            if w.len() >= 3 && str_starts_with(w[0].as_str(), "/dev/sd") && (starts_with_path(w[1].as_str(), "/media")
                || starts_with_path(w[1].as_str(), "/mnt")) {
                assert(text_views(w@)[0] == w@[0]@ && text_views(w@)[1] == w@[1]@ && text_views(w@)[2] == w@[2]@);
                let d = RemovableDevice {
                    device_id: w[0].clone(),
                    mount_point: w[1].clone(),
                    device_name: device_name_of(w[1].as_str()),
                    device_type: DeviceType::UsbDrive,
                    file_system: w[2].clone(),
                    total_size_bytes: 0,
                    free_space_bytes: 0,
                    mount_time: now,
                    last_scan_time: None,
                    is_trusted: false,
                };
                out.push(d);
            } else {
                proof {
                    if w@.len() >= 3 {
                        assert(text_views(w@)[0] == w@[0]@ && text_views(w@)[1] == w@[1]@);
                    }
                }
            }
        }
        assert(text_views(lines@).take(n as int) =~= text_views(lines@));
        Ok(out)
    }

    /// The drives that a drive listing describes, seen at `now`: after its
    /// three header lines, one for each row of at least five fields
    /// (identifier, volume name, size, free space, file system), in order.
    pub fn parse_windows_drives(&self, output: &str, now: Timestamp) -> (r: Result<Vec<RemovableDevice>, AntivirusError>)
        ensures
            r matches Ok(v) && v@.len() == drive_rows(after_lines(text_lines(output@), 3)).len() && forall|i: int|
                0 <= i < v@.len() ==> listed_drive(#[trigger] v@[i], drive_rows(after_lines(text_lines(output@), 3))[i], now),
    {
        let lines = lines_of(output);
        let mut out: Vec<RemovableDevice> = Vec::new();
        let n = lines.len();
        let ghost rows = after_lines(text_lines(output@), 3);
        if n <= 3 {
            assert(rows =~= Seq::<Seq<char>>::empty());
            return Ok(out);
        }
        assert(rows =~= text_views(lines@).skip(3));
        for i in 3..n
            invariant
                n == lines@.len(),
                n > 3,
                rows == text_views(lines@).skip(3),
                out@.len() == drive_rows(rows.take(i - 3)).len(),
                forall|k: int| 0 <= k < out@.len() ==> listed_drive(#[trigger] out@[k], drive_rows(rows.take(i - 3))[k], now),
        {
            assert(rows.take(i - 3 + 1).drop_last() =~= rows.take(i - 3));
            assert(rows.take(i - 3 + 1).last() == lines@[i as int]@);
            let w = words_of(lines[i].as_str());
            if w.len() >= 5 {
                assert(text_views(w@)[0] == w@[0]@ && text_views(w@)[1] == w@[1]@ && text_views(w@)[2] == w@[2]@);
                assert(text_views(w@)[3] == w@[3]@ && text_views(w@)[4] == w@[4]@);
                let name = if w[1].as_str().unicode_len() > 0 { w[1].clone() } else { w[0].clone() };
                let d = RemovableDevice {
                    device_id: w[0].clone(),
                    mount_point: w[0].clone(),
                    device_name: name,
                    device_type: DeviceType::UsbDrive,
                    file_system: w[4].clone(),
                    total_size_bytes: parse_or_zero(w[2].as_str()),
                    free_space_bytes: parse_or_zero(w[3].as_str()),
                    mount_time: now,
                    last_scan_time: None,
                    is_trusted: false,
                };
                out.push(d);
            }
        }
        assert(rows.take(n - 3) =~= rows);
        Ok(out)
    }

    /// Size, free space and file system of a volume from the outputs of
    /// `df -k` and `diskutil info` (`None` where the tool could not be run).
    pub fn get_macos_fs_info(&self, df_output: Option<&str>, diskutil_output: Option<&str>) -> (r: Result<(u64, u64, String), AntivirusError>)
        ensures
            r matches Ok(t) && (t.0, t.1) == df_sizes(match df_output {
                Some(o) => Some(o@),
                None => None::<Seq<char>>,
            }) && t.2@ == fs_type(match diskutil_output {
                Some(o) => Some(o@),
                None => None::<Seq<char>>,
            }),
    {
        let (total, free) = df_numbers(df_output);
        let fs = match diskutil_output {
            Some(o) => match fs_personality(o) {
                Some(f) => f,
                None => fs_from_words(o),
            },
            None => owned("unknown"),
        };
        Ok((total, free, fs))
    }

    /// The device type of a volume from its `diskutil info` output, or
    /// else from its path.
    pub fn detect_macos_device_type(&self, diskutil_output: Option<&str>, path: &str) -> (r: DeviceType)
        ensures
            r == macos_device_type(match diskutil_output {
                Some(o) => Some(o@),
                None => None::<Seq<char>>,
            }, path@),
    {
        match diskutil_output {
            Some(o) => {
                let l = to_lowercase(o);
                let usb: [&str; 3] = ["usb", "usb 2.0", "usb 3.0"];
                let card: [&str; 2] = ["sd", "card"];
                let stick: [&str; 2] = ["flash", "thumb"];
                let bus: [&str; 2] = ["firewire", "thunderbolt"];
                assert(usb@[0]@ == "usb"@ && usb@[1]@ == "usb 2.0"@ && usb@[2]@ == "usb 3.0"@);
                assert(card@[0]@ == "sd"@ && card@[1]@ == "card"@);
                assert(stick@[0]@ == "flash"@ && stick@[1]@ == "thumb"@);
                assert(bus@[0]@ == "firewire"@ && bus@[1]@ == "thunderbolt"@);
                if contains_any(l.as_str(), &usb) {
                    if contains_any(l.as_str(), &card) {
                        DeviceType::SdCard
                    } else if contains_any(l.as_str(), &stick) {
                        DeviceType::UsbDrive
                    } else {
                        DeviceType::ExternalHdd
                    }
                } else if contains_any(l.as_str(), &bus) {
                    DeviceType::ExternalHdd
                } else {
                    type_from_name(path)
                }
            },
            None => type_from_name(path),
        }
    }

    /// Whether a volume is external, from its `diskutil info` output, or
    /// else from its path.
    pub fn is_external_volume(&self, diskutil_output: Option<&str>, path: &str) -> (r: bool)
        ensures
            r == external_volume(match diskutil_output {
                Some(o) => Some(o@),
                None => None::<Seq<char>>,
            }, path@),
    {
        match diskutil_output {
            Some(o) => {
                (str_contains(o, "External:") && str_contains(o, "External: Yes")) || (str_contains(o, "Removable Media:")
                    && str_contains(o, "Removable Media: Yes")) || (str_contains(o, "Protocol:") && (str_contains(o, "USB")
                    || str_contains(o, "FireWire") || str_contains(o, "Thunderbolt")))
            },
            None => {
                let l = to_lowercase(path);
                let hints: [&str; 5] = ["usb", "external", "sd", "flash", "thumb"];
                assert(hints@[0]@ == "usb"@ && hints@[1]@ == "external"@ && hints@[2]@ == "sd"@ && hints@[3]@ == "flash"@ && hints@[4]@ == "thumb"@);
                contains_any(l.as_str(), &hints)
            },
        }
    }

    /// Whether a volume name is one of the system's rather than a device's.
    pub fn is_system_volume(&self, name: &str) -> (r: bool)
        ensures
            r == system_volume(name@),
    {
        str_starts_with(name, ".") || str_eq(name, "Macintosh HD") || str_eq(name, "Preboot") || str_eq(name, "Recovery")
            || str_eq(name, "VM") || str_eq(name, "Data")
    }

    /// The device for a mounted volume at `path`, from the outputs of
    /// `df -k` and `diskutil info`, its creation time and its path's hash.
    pub fn create_macos_device(
        &self,
        path: &str,
        df_output: Option<&str>,
        diskutil_output: Option<&str>,
        mount_time: Timestamp,
        path_hash: u64,
    ) -> (r: RemovableDevice)
        ensures
            r.device_id@ == macos_device_id(name_of_path(path@), path_hash),
            r.mount_point@ == path@,
            r.device_name@ == name_of_path(path@),
            r.device_type == macos_device_type(match diskutil_output {
                Some(o) => Some(o@),
                None => None::<Seq<char>>,
            }, path@),
            (r.total_size_bytes, r.free_space_bytes) == df_sizes(match df_output {
                Some(o) => Some(o@),
                None => None::<Seq<char>>,
            }),
            r.file_system@ == fs_type(match diskutil_output {
                Some(o) => Some(o@),
                None => None::<Seq<char>>,
            }),
            r.mount_time == mount_time,
            r.last_scan_time is None,
            !r.is_trusted,
    {
        let device_name = device_name_of(path);
        let spaced = replace_spaces(device_name.as_str());
        let clean = to_lowercase(spaced.as_str());
        let mut device_id = owned("usb_");
        if str_eq(clean.as_str(), "no_name") || clean.as_str().unicode_len() == 0 {
            let low = path_hash & 0xFFFF;
            assert(low == path_hash % 0x10000) by (bit_vector)
                requires
                    low == path_hash & 0xFFFF,
            ;
            let h = to_hex_text(low);
            device_id.append(h.as_str());
        } else {
            device_id.append(clean.as_str());
        }
        let (total, free, fs) = match self.get_macos_fs_info(df_output, diskutil_output) {
            Ok(t) => t,
            Err(_) => (0, 0, owned("unknown")),
        };
        RemovableDevice {
            device_id,
            mount_point: owned(path),
            device_name,
            device_type: self.detect_macos_device_type(diskutil_output, path),
            file_system: fs,
            total_size_bytes: total,
            free_space_bytes: free,
            mount_time,
            last_scan_time: None,
            is_trusted: false,
        }
    }

    /// The device for a directory mounted at `path`, created at
    /// `mount_time`: identified as `linux_` and its name, of unknown type
    /// and size.
    pub fn create_linux_device(&self, path: &str, mount_time: Timestamp) -> (r: RemovableDevice)
        ensures
            r.device_id@ == "linux_"@ + name_of_path(path@),
            r.mount_point@ == path@,
            r.device_name@ == name_of_path(path@),
            r.device_type == DeviceType::Unknown,
            r.file_system@ == "unknown"@,
            r.total_size_bytes == 0,
            r.free_space_bytes == 0,
            r.mount_time == mount_time,
            r.last_scan_time is None,
            !r.is_trusted,
    {
        let device_name = device_name_of(path);
        let mut device_id = owned("linux_");
        device_id.append(device_name.as_str());
        RemovableDevice {
            device_id,
            mount_point: owned(path),
            device_name,
            device_type: DeviceType::Unknown,
            file_system: owned("unknown"),
            total_size_bytes: 0,
            free_space_bytes: 0,
            mount_time,
            last_scan_time: None,
            is_trusted: false,
        }
    }
}

fn df_numbers(df_output: Option<&str>) -> (r: (u64, u64))
    ensures
        r == df_sizes(match df_output {
            Some(o) => Some(o@),
            None => None::<Seq<char>>,
        }),
{
    match df_output {
        Some(o) => {
            let ls = lines_of(o);
            if ls.len() >= 2 {
                let w = words_of(ls[1].as_str());
                assert(text_views(ls@)[1] == ls@[1]@);
                if w.len() >= 4 {
                    assert(text_views(w@)[1] == w@[1]@ && text_views(w@)[3] == w@[3]@);
                    let total_kb = parse_or_zero(w[1].as_str());
                    let free_kb = parse_or_zero(w[3].as_str());
                    (total_kb.wrapping_mul(1024), free_kb.wrapping_mul(1024))
                } else {
                    (0, 0)
                }
            } else {
                (0, 0)
            }
        },
        None => (0, 0),
    }
}

fn fs_personality(o: &str) -> (r: Option<String>)
    ensures
        match r {
            Some(f) => personality(text_lines(o@)) == Some(f@),
            None => personality(text_lines(o@)) is None,
        },
{
    let ls = lines_of(o);
    let n = ls.len();
    let mut i: usize = 0;
    assert(text_views(ls@).skip(0) =~= text_views(ls@));
    while i < n
        invariant
            n == ls@.len(),
            i <= n,
            text_views(ls@) == text_lines(o@),
            personality(text_views(ls@)) == personality(text_views(ls@).skip(i as int)),
        decreases n - i,
    {
        let line = ls[i].as_str();
        let ghost rest = text_views(ls@).skip(i as int);
        assert(rest[0] == line@);
        assert(rest.drop_first() =~= text_views(ls@).skip(i + 1));
        if str_contains(line, "File System Personality:") || str_contains(line, "Type (Bundle):") {
            match field_after_colon(line) {
                Some(f) => {
                    let t = trim_str(f.as_str());
                    if t.as_str().unicode_len() > 0 && !str_eq(t.as_str(), "Unknown") {
                        return Some(t);
                    }
                },
                None => {},
            }
        }
        i = i + 1;
    }
    assert(text_views(ls@).skip(n as int) =~= Seq::<Seq<char>>::empty());
    None
}

fn fs_from_words(o: &str) -> (r: String)
    ensures
        r@ == fs_fallback(o@),
{
    if str_contains(o, "FAT32") || str_contains(o, "MS-DOS FAT32") {
        owned("FAT32")
    } else if str_contains(o, "ExFAT") || str_contains(o, "MS-DOS ExFAT") {
        owned("exFAT")
    } else if str_contains(o, "NTFS") {
        owned("NTFS")
    } else if str_contains(o, "HFS+") || str_contains(o, "Mac OS Extended") {
        owned("HFS+")
    } else if str_contains(o, "APFS") {
        owned("APFS")
    } else {
        owned("unknown")
    }
}

/// Each path with its number of components.
pub open spec fn depth_keyed(v: Seq<String>) -> Seq<(Seq<char>, u64)> {
    Seq::new(v.len(), |i: int| (v[i]@, components(v[i]@).len() as u64))
}

/// The names of ranked items.
pub open spec fn ranked_names(s: Seq<(Seq<char>, u64)>) -> Seq<Seq<char>> {
    Seq::new(s.len(), |i: int| s[i].0)
}

/// The paths, deepest first; paths of equal depth keep their order.
pub open spec fn deepest_first_order(v: Seq<String>) -> Seq<Seq<char>> {
    ranked_names(ranked(depth_keyed(v)))
}

/// The paths other than those equal to `root`, in order.
pub open spec fn without_path(s: Seq<Seq<char>>, root: Seq<char>) -> Seq<Seq<char>>
    decreases s.len(),
{
    if s.len() == 0 {
        Seq::empty()
    } else if same_path(s.last(), root) {
        without_path(s.drop_last(), root)
    } else {
        without_path(s.drop_last(), root).push(s.last())
    }
}

/// The paths ordered deepest first, as files are deleted and directories
/// removed during a wipe; paths of equal depth keep their order.
pub fn deepest_first(paths: &[String]) -> (r: Vec<String>)
    ensures
        text_views(r@) == deepest_first_order(paths@),
{
    let mut keyed: Vec<(String, u64)> = Vec::new();
    let n = paths.len();
    for i in 0..n
        invariant
            n == paths@.len(),
            keyed_views(keyed@) == depth_keyed(paths@).take(i as int),
    {
        let c = components_of(paths[i].as_str());
        let ghost before = keyed_views(keyed@);
        let p = paths[i].clone();
        assert(p@ == paths@[i as int]@);
        let d = c.len() as u64;
        keyed.push((p, d));
        proof {
            assert(before.len() == i);
            assert(keyed@.len() == i + 1);
            assert(keyed_views(keyed@).len() == i + 1);
            assert(views(c@).len() == c@.len());
            assert(d == components(paths@[i as int]@).len() as u64);
            assert(keyed_views(keyed@)[i as int] == depth_keyed(paths@)[i as int]);
            assert(keyed_views(keyed@) =~= depth_keyed(paths@).take(i + 1));
        }
    }
    assert(depth_keyed(paths@).take(n as int) =~= depth_keyed(paths@));
    let sorted = rank_descending(keyed.as_slice());
    let mut r: Vec<String> = Vec::new();
    let m = sorted.len();
    for j in 0..m
        invariant
            m == sorted@.len(),
            text_views(r@) == ranked_names(keyed_views(sorted@)).take(j as int),
    {
        let x = sorted[j].0.clone();
        assert(keyed_views(sorted@).len() == m);
        assert(x@ == keyed_views(sorted@)[j as int].0);
        assert(text_views(r@).len() == r@.len());
        assert(r@.len() == j);
        r.push(x);
        assert(text_views(r@).len() == j + 1);
        assert(text_views(r@) =~= ranked_names(keyed_views(sorted@)).take(j + 1));
    }
    assert(ranked_names(keyed_views(sorted@)).take(m as int) =~= ranked_names(keyed_views(sorted@)));
    r
}


impl WipeResult {
    /// The outcome of a wipe of the device: successful when no deletion
    /// failed.
    pub fn from_stats(device_id: &str, device: &RemovableDevice, stats: WipeStats) -> (r: WipeResult)
        ensures
            r.device_id@ == device_id@,
            r.device_name == device.device_name,
            r.stats == stats,
            r.success == (stats.failed_files == 0),
    {
        WipeResult {
            device_id: owned(device_id),
            device_name: device.device_name.clone(),
            success: stats.failed_files == 0,
            stats,
        }
    }
}

impl RemovableDevice {
    /// A copy of the device.
    pub fn clone_device(&self) -> (r: RemovableDevice)
        ensures
            r == *self,
    {
        RemovableDevice {
            device_id: self.device_id.clone(),
            mount_point: self.mount_point.clone(),
            device_name: self.device_name.clone(),
            device_type: self.device_type,
            file_system: self.file_system.clone(),
            total_size_bytes: self.total_size_bytes,
            free_space_bytes: self.free_space_bytes,
            mount_time: self.mount_time,
            last_scan_time: self.last_scan_time,
            is_trusted: self.is_trusted,
        }
    }
}

} // verus!
