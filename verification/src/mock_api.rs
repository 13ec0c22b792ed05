//! A stand-in for the service's API that the control panel uses when the
//! service is not running: it answers every request with fixed data.
use vstd::prelude::*;
use crate::clock::{new_id, now_millis};
use crate::config::{AntivirusConfig, is_default_config};
use crate::removable_media::{DeviceType, RemovableDevice};
use crate::error::AntivirusError;
use crate::text::{owned, seq_contains, str_contains};
use crate::types::{
    DetectionMethod, QuarantineEntry, ScanId, ScanJobId, ScanProgress, ScanResult, ScanStatistics,
    ScanStatus, ScanType, SystemStatus, ThreatInfo, ThreatSeverity, ThreatType, Timestamp,
    UpdateInfo, threat_error,
};

verus! {

/// Milliseconds in a minute.
pub const MS_PER_MINUTE: i64 = 60_000;

/// The bits of the single-precision number 50.0.
pub const FIFTY_PERCENT: u32 = 0x4248_0000;

/// The mock client and whether it is connected.
pub struct MockApiClient {
    connected: bool,
}

/// The scan result that the mock reports for a finished scan, as it reads
/// at `now`: completed five minutes earlier over 15420 files. Its sample
/// threats carry digests that validation refuses, so none is listed.
pub open spec fn mock_scan_result(r: ScanResult, job_id: ScanJobId, now: Timestamp) -> bool {
    &&& r.scan_id == job_id
    &&& r.start_time == now - 5 * MS_PER_MINUTE
    &&& r.end_time == Some(now)
    &&& r.status == ScanStatus::Completed
    &&& r.scanned_files == 15420
    &&& r.threats_found@.len() == 0
    &&& r.errors@.len() == 0
    &&& r.statistics == (ScanStatistics {
        total_files: 15420,
        scanned_files: 15420,
        skipped_files: 0,
        infected_files: 3,
        cleaned_files: 2,
        quarantined_files: 3,
        scan_duration_ms: 300000,
    })
}

/// The devices that the mock reports at `now`: a USB stick, a trusted SD
/// card and an external disk.
pub open spec fn mock_devices(v: Seq<RemovableDevice>, now: Timestamp) -> bool {
    &&& v.len() == 3
    &&& v[0].device_id@ == "usb_001"@ && v[0].mount_point@ == "/Volumes/KINGSTON"@
        && v[0].device_name@ == "Kingston DataTraveler"@ && v[0].device_type == DeviceType::UsbDrive
        && v[0].file_system@ == "FAT32"@ && v[0].total_size_bytes == 8_000_000_000
        && v[0].free_space_bytes == 6_000_000_000 && v[0].mount_time == now - 30 * MS_PER_MINUTE
        && v[0].last_scan_time is None && !v[0].is_trusted
    &&& v[1].device_id@ == "sd_001"@ && v[1].mount_point@ == "/Volumes/SANDISK"@
        && v[1].device_name@ == "SanDisk Ultra"@ && v[1].device_type == DeviceType::SdCard
        && v[1].file_system@ == "exFAT"@ && v[1].total_size_bytes == 32_000_000_000
        && v[1].free_space_bytes == 20_000_000_000 && v[1].mount_time == now - 60 * MS_PER_MINUTE
        && v[1].last_scan_time == Some((now - 120 * MS_PER_MINUTE) as i64) && v[1].is_trusted
    &&& v[2].device_id@ == "hdd_001"@ && v[2].mount_point@ == "/Volumes/BACKUP"@
        && v[2].device_name@ == "Seagate Backup Plus"@ && v[2].device_type == DeviceType::ExternalHdd
        && v[2].file_system@ == "NTFS"@ && v[2].total_size_bytes == 1_000_000_000_000
        && v[2].free_space_bytes == 500_000_000_000 && v[2].mount_time == now - 180 * MS_PER_MINUTE
        && v[2].last_scan_time == Some((now - 1440 * MS_PER_MINUTE) as i64) && !v[2].is_trusted
}

/// The result that the mock reports for a scan of a device, as it reads at
/// `now`: finished thirty seconds earlier, over 5000 files for a disk and
/// 150 otherwise. The sample threats of USB devices carry digests that
/// validation refuses, so none is listed.
pub open spec fn mock_device_scan_result(r: ScanResult, device_id: Seq<char>, now: Timestamp) -> bool {
    let files: u64 = if seq_contains(device_id, "hdd"@) { 5000 } else { 150 };
    &&& r.start_time == now - 30000
    &&& r.end_time == Some(now)
    &&& r.status == ScanStatus::Completed
    &&& r.scanned_files == files
    &&& r.threats_found@.len() == 0
    &&& r.errors@.len() == 0
    &&& r.statistics == (ScanStatistics {
        total_files: files,
        scanned_files: files,
        skipped_files: 0,
        infected_files: 0,
        cleaned_files: 0,
        quarantined_files: 0,
        scan_duration_ms: 30000,
    })
}

fn device(
    device_id: &str,
    mount_point: &str,
    device_name: &str,
    device_type: DeviceType,
    file_system: &str,
    total_size_bytes: u64,
    free_space_bytes: u64,
    mount_time: Timestamp,
    last_scan_time: Option<Timestamp>,
    is_trusted: bool,
) -> (r: RemovableDevice)
    ensures
        r.device_id@ == device_id@,
        r.mount_point@ == mount_point@,
        r.device_name@ == device_name@,
        r.device_type == device_type,
        r.file_system@ == file_system@,
        r.total_size_bytes == total_size_bytes,
        r.free_space_bytes == free_space_bytes,
        r.mount_time == mount_time,
        r.last_scan_time == last_scan_time,
        r.is_trusted == is_trusted,
{
    RemovableDevice {
        device_id: owned(device_id),
        mount_point: owned(mount_point),
        device_name: owned(device_name),
        device_type,
        file_system: owned(file_system),
        total_size_bytes,
        free_space_bytes,
        mount_time,
        last_scan_time,
        is_trusted,
    }
}

/// Adds the sample threat when it passes validation.
fn add_sample(
    threats: &mut Vec<ThreatInfo>,
    name: &str,
    threat_type: ThreatType,
    severity: ThreatSeverity,
    path: &str,
    hash: &str,
    method: DetectionMethod,
)
    ensures
        threat_error(name@, hash@) is Some ==> final(threats)@ == old(threats)@,
        threat_error(name@, hash@) is None ==> final(threats)@.len() == old(threats)@.len() + 1,
{
    match ThreatInfo::new(owned(name), threat_type, severity, owned(path), owned(hash), method) {
        Ok(t) => {
            threats.push(t);
        },
        Err(_) => {},
    }
}

impl MockApiClient {
    /// Whether the client is connected.
    pub closed spec fn is_connected(&self) -> bool {
        self.connected
    }

    /// A disconnected client; the pipe name is not used.
    pub fn new(_pipe_name: String) -> (r: Self)
        ensures
            !r.is_connected(),
    {
        MockApiClient { connected: false }
    }

    /// Connects.
    pub fn connect(&mut self) -> (r: Result<(), AntivirusError>)
        ensures
            r is Ok,
            final(self).is_connected(),
    {
        self.connected = true;
        Ok(())
    }

    /// Disconnects.
    pub fn disconnect(&mut self) -> (r: Result<(), AntivirusError>)
        ensures
            r is Ok,
            !final(self).is_connected(),
    {
        self.connected = false;
        Ok(())
    }

    /// Starts a scan: answered with a fresh job identifier.
    pub fn start_scan(&self, _scan_type: ScanType, _targets: Vec<String>) -> (r: Result<ScanJobId, AntivirusError>)
        ensures
            r is Ok,
    {
        Ok(new_id())
    }

    /// The status of a scan: running.
    pub fn get_scan_status(&self, _job_id: ScanJobId) -> (r: Result<ScanStatus, AntivirusError>)
        ensures
            r == Ok::<ScanStatus, AntivirusError>(ScanStatus::Running),
    {
        Ok(ScanStatus::Running)
    }

    /// The system status at `now`: protected, engine 1.0.0, signatures of
    /// 2024.01.01, scanned and updated at `now`, nothing detected.
    pub fn get_system_status_at(&self, now: Timestamp) -> (r: Result<SystemStatus, AntivirusError>)
        ensures
            r matches Ok(s) && s.realtime_protection_enabled && s.engine_version@ == "1.0.0"@
                && s.signature_version@ == "2024.01.01"@ && s.last_scan_time == Some(now)
                && s.last_update_time == Some(now) && s.threats_detected_today == 0
                && s.quarantine_count == 0,
    {
        Ok(SystemStatus {
            realtime_protection_enabled: true,
            engine_version: owned("1.0.0"),
            signature_version: owned("2024.01.01"),
            last_scan_time: Some(now),
            last_update_time: Some(now),
            threats_detected_today: 0,
            quarantine_count: 0,
        })
    }

    /// The system status now.
    pub fn get_system_status(&self) -> (r: Result<SystemStatus, AntivirusError>)
        ensures
            r matches Ok(s) && s.realtime_protection_enabled && s.engine_version@ == "1.0.0"@
                && s.signature_version@ == "2024.01.01"@ && s.last_scan_time is Some
                && s.last_scan_time == s.last_update_time && s.threats_detected_today == 0
                && s.quarantine_count == 0,
    {
        self.get_system_status_at(now_millis())
    }

    /// The progress of a scan: half of 2000 files, at a system library,
    /// thirty seconds to go.
    pub fn get_scan_progress(&self, job_id: ScanJobId) -> (r: Result<ScanProgress, AntivirusError>)
        ensures
            r matches Ok(p) && p.scan_id == job_id && p.percentage_complete == FIFTY_PERCENT
                && p.files_scanned == 1000 && p.total_files == 2000 && p.threats_found == 0
                && (p.current_file matches Some(f) && f@ == "C:\\Windows\\System32\\kernel32.dll"@)
                && p.estimated_time_remaining_ms == Some(30000u64),
    {
        Ok(ScanProgress {
            scan_id: job_id,
            percentage_complete: FIFTY_PERCENT,
            files_scanned: 1000,
            total_files: 2000,
            threats_found: 0,
            current_file: Some(owned("C:\\Windows\\System32\\kernel32.dll")),
            estimated_time_remaining_ms: Some(30000),
        })
    }

    /// The result of a finished scan as it reads at `now`.
    pub fn get_scan_result_at(&self, job_id: ScanJobId, now: Timestamp) -> (r: Result<ScanResult, AntivirusError>)
        requires
            now >= i64::MIN + 5 * MS_PER_MINUTE,
        ensures
            r matches Ok(res) && mock_scan_result(res, job_id, now),
    {
        let mut threats: Vec<ThreatInfo> = Vec::new();
        proof {
            reveal_strlit("a1b2c3d4e5f6789012345678901234567890123456789012345678901234567890");
            reveal_strlit("b2c3d4e5f6789012345678901234567890123456789012345678901234567890a1");
            reveal_strlit("c3d4e5f6789012345678901234567890123456789012345678901234567890a1b2");
        }
        add_sample(
            &mut threats,
            "Win32.TestVirus.A",
            ThreatType::Virus,
            ThreatSeverity::High,
            "C:\\Users\\Test\\Downloads\\suspicious.exe",
            "a1b2c3d4e5f6789012345678901234567890123456789012345678901234567890",
            DetectionMethod::Signature,
        );
        add_sample(
            &mut threats,
            "Trojan.Generic.KD.12345",
            ThreatType::Trojan,
            ThreatSeverity::Critical,
            "C:\\Temp\\malware.dll",
            "b2c3d4e5f6789012345678901234567890123456789012345678901234567890a1",
            DetectionMethod::Heuristic,
        );
        add_sample(
            &mut threats,
            "Adware.BrowserHelper",
            ThreatType::Adware,
            ThreatSeverity::Medium,
            "C:\\Program Files\\SuspiciousApp\\helper.exe",
            "c3d4e5f6789012345678901234567890123456789012345678901234567890a1b2",
            DetectionMethod::MachineLearning,
        );
        Ok(ScanResult {
            scan_id: job_id,
            start_time: now - 5 * MS_PER_MINUTE,
            end_time: Some(now),
            status: ScanStatus::Completed,
            scanned_files: 15420,
            threats_found: threats,
            errors: Vec::new(),
            statistics: ScanStatistics {
                total_files: 15420,
                scanned_files: 15420,
                skipped_files: 0,
                infected_files: 3,
                cleaned_files: 2,
                quarantined_files: 3,
                scan_duration_ms: 300000,
            },
        })
    }

    /// The result of a finished scan as it reads now.
    pub fn get_scan_result(&self, job_id: ScanJobId) -> (r: Result<ScanResult, AntivirusError>)
        ensures
            r matches Ok(res) && exists|now: Timestamp| #[trigger] mock_scan_result(res, job_id, now),
    {
        let now = now_millis();
        self.get_scan_result_at(job_id, now)
    }

    /// The quarantine: empty.
    pub fn get_quarantine_list(&self) -> (r: Result<Vec<QuarantineEntry>, AntivirusError>)
        ensures
            r matches Ok(v) && v@.len() == 0,
    {
        Ok(Vec::new())
    }

    /// Restores a quarantined file: accepted.
    pub fn restore_from_quarantine(&self, _quarantine_id: String) -> (r: Result<(), AntivirusError>)
        ensures
            r is Ok,
    {
        Ok(())
    }

    /// Deletes a quarantined file: accepted.
    pub fn delete_from_quarantine(&self, _quarantine_id: String) -> (r: Result<(), AntivirusError>)
        ensures
            r is Ok,
    {
        Ok(())
    }

    /// The available updates: none.
    pub fn check_updates(&self) -> (r: Result<Vec<UpdateInfo>, AntivirusError>)
        ensures
            r matches Ok(v) && v@.len() == 0,
    {
        Ok(Vec::new())
    }

    /// Applies updates: accepted.
    pub fn apply_updates(&self) -> (r: Result<(), AntivirusError>)
        ensures
            r is Ok,
    {
        Ok(())
    }

    /// The configuration: the defaults.
    pub fn get_configuration(&self) -> (r: Result<AntivirusConfig, AntivirusError>)
        ensures
            r matches Ok(c) && is_default_config(c),
    {
        Ok(AntivirusConfig::default())
    }

    /// Changes a configuration value: accepted.
    pub fn update_configuration_value(&self, _key: String, _value: String) -> (r: Result<(), AntivirusError>)
        ensures
            r is Ok,
    {
        Ok(())
    }

    /// The removable devices as they read at `now`.
    pub fn get_removable_devices_at(&self, now: Timestamp) -> (r: Result<Vec<RemovableDevice>, AntivirusError>)
        requires
            now >= i64::MIN + 1440 * MS_PER_MINUTE,
        ensures
            r matches Ok(v) && mock_devices(v@, now),
    {
        let mut devices: Vec<RemovableDevice> = Vec::new();
        devices.push(device(
            "usb_001",
            "/Volumes/KINGSTON",
            "Kingston DataTraveler",
            DeviceType::UsbDrive,
            "FAT32",
            8_000_000_000,
            6_000_000_000,
            now - 30 * MS_PER_MINUTE,
            None,
            false,
        ));
        devices.push(device(
            "sd_001",
            "/Volumes/SANDISK",
            "SanDisk Ultra",
            DeviceType::SdCard,
            "exFAT",
            32_000_000_000,
            20_000_000_000,
            now - 60 * MS_PER_MINUTE,
            Some(now - 120 * MS_PER_MINUTE),
            true,
        ));
        devices.push(device(
            "hdd_001",
            "/Volumes/BACKUP",
            "Seagate Backup Plus",
            DeviceType::ExternalHdd,
            "NTFS",
            1_000_000_000_000,
            500_000_000_000,
            now - 180 * MS_PER_MINUTE,
            Some(now - 1440 * MS_PER_MINUTE),
            false,
        ));
        Ok(devices)
    }

    /// The removable devices as they read now.
    pub fn get_removable_devices(&self) -> (r: Result<Vec<RemovableDevice>, AntivirusError>)
        ensures
            r matches Ok(v) && exists|now: Timestamp| #[trigger] mock_devices(v@, now),
    {
        let now = now_millis();
        self.get_removable_devices_at(now)
    }

    /// Starts a scan of a device: answered with a fresh job identifier.
    pub fn scan_removable_device(&self, _device_id: String) -> (r: Result<ScanJobId, AntivirusError>)
        ensures
            r is Ok,
    {
        Ok(new_id())
    }

    /// The result of a scan of the device as it reads at `now`.
    pub fn get_removable_device_scan_result_at(&self, device_id: String, now: Timestamp) -> (r: Result<ScanResult, AntivirusError>)
        requires
            now >= i64::MIN + 30000,
        ensures
            r matches Ok(res) && mock_device_scan_result(res, device_id@, now),
    {
        let scan_id: ScanId = new_id();
        let mut threats: Vec<ThreatInfo> = Vec::new();
        if str_contains(device_id.as_str(), "usb") {
            proof {
                reveal_strlit("d4e5f6789012345678901234567890123456789012345678901234567890a1b2c3");
                reveal_strlit("e5f6789012345678901234567890123456789012345678901234567890a1b2c3d4");
            }
            add_sample(
                &mut threats,
                "USB.Autorun.Virus",
                ThreatType::Virus,
                ThreatSeverity::High,
                "/Volumes/KINGSTON/autorun.inf",
                "d4e5f6789012345678901234567890123456789012345678901234567890a1b2c3",
                DetectionMethod::Signature,
            );
            add_sample(
                &mut threats,
                "Suspicious.Executable",
                ThreatType::Suspicious,
                ThreatSeverity::Medium,
                "/Volumes/KINGSTON/setup.exe",
                "e5f6789012345678901234567890123456789012345678901234567890a1b2c3d4",
                DetectionMethod::Heuristic,
            );
        }
        let files_scanned: u64 = if str_contains(device_id.as_str(), "hdd") { 5000 } else { 150 };
        let n = threats.len() as u64;
        Ok(ScanResult {
            scan_id,
            start_time: now - 30000,
            end_time: Some(now),
            status: ScanStatus::Completed,
            scanned_files: files_scanned,
            threats_found: threats,
            errors: Vec::new(),
            statistics: ScanStatistics {
                total_files: files_scanned,
                scanned_files: files_scanned,
                skipped_files: 0,
                infected_files: n,
                cleaned_files: 0,
                quarantined_files: n,
                scan_duration_ms: 30000,
            },
        })
    }

    /// The result of a scan of the device as it reads now.
    pub fn get_removable_device_scan_result(&self, device_id: String) -> (r: Result<ScanResult, AntivirusError>)
        ensures
            r matches Ok(res) && exists|now: Timestamp| #[trigger] mock_device_scan_result(res, device_id@, now),
    {
        let now = now_millis();
        self.get_removable_device_scan_result_at(device_id, now)
    }

    /// Cleans a device: accepted.
    pub fn clean_removable_device(&self, _device_id: String) -> (r: Result<(), AntivirusError>)
        ensures
            r is Ok,
    {
        Ok(())
    }

    /// Marks a device as trusted or not: accepted.
    pub fn set_device_trust(&self, _device_id: String, _trusted: bool) -> (r: Result<(), AntivirusError>)
        ensures
            r is Ok,
    {
        Ok(())
    }
}

} // verus!
