use hadron_core::removable_media::{
    DeviceType, RemovableDevice, RemovableMediaConfig, RemovableMediaDetector, WipeResult, WipeStats,
};

fn device(id: &str, mount: &str, t: DeviceType) -> RemovableDevice {
    RemovableDevice {
        device_id: id.to_string(),
        mount_point: mount.to_string(),
        device_name: "Test Device".to_string(),
        device_type: t,
        file_system: "fat32".to_string(),
        total_size_bytes: 1024 * 1024 * 1024,
        free_space_bytes: 512 * 1024 * 1024,
        mount_time: 1_700_000_000_000,
        last_scan_time: None,
        is_trusted: false,
    }
}

fn known<'a>(d: &'a RemovableMediaDetector, id: &str) -> Option<&'a RemovableDevice> {
    d.get_known_devices().into_iter().find(|x| x.device_id == id)
}

#[test]
fn test_detector_creation() {
    let detector = RemovableMediaDetector::new();
    assert!(detector.get_known_devices().is_empty());
}

#[test]
fn test_device_trust_management() {
    let mut detector = RemovableMediaDetector::new();
    detector.insert_device(device("test_device", "/test", DeviceType::UsbDrive));
    assert!(detector.mark_device_trusted("test_device", true).is_ok());
    assert!(known(&detector, "test_device").unwrap().is_trusted);
    assert!(detector.mark_device_trusted("test_device", false).is_ok());
    assert!(!known(&detector, "test_device").unwrap().is_trusted);
    match detector.mark_device_trusted("missing", true) {
        Err(hadron_core::error::AntivirusError::Internal(m)) => assert_eq!(m, "Device not found: missing"),
        other => panic!("unexpected {:?}", other),
    }
}

#[test]
fn test_should_scan_device() {
    let detector = RemovableMediaDetector::new();
    let d = device("test_device", "/test", DeviceType::UsbDrive);
    assert!(detector.should_scan_device(&d));
    let mut trusted_device = d.clone();
    trusted_device.is_trusted = true;
    assert!(!detector.should_scan_device(&trusted_device));
}

#[test]
fn scan_decisions_at_given_times() {
    let detector = RemovableMediaDetector::new();
    let mut d = device("x", "/media/x", DeviceType::CdRom);
    assert!(!detector.should_scan_device_at(&d, 0));
    d.device_type = DeviceType::SdCard;
    d.total_size_bytes = 1001 * 1024 * 1024 * 1024;
    assert!(!detector.should_scan_device_at(&d, 0));
    d.total_size_bytes = 1000 * 1024 * 1024 * 1024 + 5;
    assert!(detector.should_scan_device_at(&d, 0));
    d.last_scan_time = Some(0);
    assert!(!detector.should_scan_device_at(&d, 24 * 3_600_000 - 1));
    assert!(detector.should_scan_device_at(&d, 24 * 3_600_000));
    let mut config = RemovableMediaConfig::default();
    config.auto_scan_enabled = false;
    assert!(!RemovableMediaDetector::with_config(config).should_scan_device_at(&d, 24 * 3_600_000));
}

#[test]
fn registering_devices_replaces_by_identifier() {
    let mut detector = RemovableMediaDetector::new();
    let mut a2 = device("a", "/media/a2", DeviceType::UsbDrive);
    a2.device_name = "second".to_string();
    detector.record_detected_devices(&[
        device("a", "/media/a", DeviceType::UsbDrive),
        device("b", "/media/b", DeviceType::SdCard),
        a2,
    ]);
    assert_eq!(detector.get_known_devices().len(), 2);
    assert_eq!(known(&detector, "a").unwrap().mount_point, "/media/a2");
    assert_eq!(known(&detector, "b").unwrap().device_type, DeviceType::SdCard);
    detector.update_device_scan_time_at("b", 77);
    assert_eq!(known(&detector, "b").unwrap().last_scan_time, Some(77));
    detector.update_device_scan_time_at("zzz", 78);
    assert_eq!(detector.get_known_devices().len(), 2);
    detector.update_device_scan_time("a");
    assert!(known(&detector, "a").unwrap().last_scan_time.is_some());
}

#[test]
fn wipe_targets_must_be_known_and_removable() {
    let mut detector = RemovableMediaDetector::new();
    detector.insert_device(device("usb", "/Volumes/STICK", DeviceType::UsbDrive));
    detector.insert_device(device("sys", "C:\\Windows", DeviceType::UsbDrive));
    detector.insert_device(device("cd", "E:\\", DeviceType::CdRom));
    assert!(matches!(detector.wipe_target("usb"), Err(_)));
    assert!(detector.wipe_target("cd").is_err());
    assert!(detector.wipe_target("sys").is_err());
    detector.insert_device(device("ok", "E:\\", DeviceType::SdCard));
    assert_eq!(detector.wipe_target("ok").unwrap().device_id, "ok");
    match detector.wipe_target("nope") {
        Err(hadron_core::error::AntivirusError::Internal(m)) => assert_eq!(m, "Device not found: nope"),
        other => panic!("unexpected {:?}", other),
    }
    assert!(!detector.is_removable_device(&device("h", "/home/u/usb", DeviceType::UsbDrive)));
    assert!(detector.is_removable_device(&device("d", "D:\\", DeviceType::ExternalHdd)));
    assert_eq!(detector.get_device_scan_paths(&device("d", "D:\\", DeviceType::ExternalHdd)), vec!["D:\\".to_string()]);
}

#[test]
fn wipe_bookkeeping() {
    let mut stats = WipeStats::default();
    stats.total_files = 3;
    stats.record("/v/a", None);
    stats.record("/v/b", Some("denied"));
    stats.record("/v/c", None);
    assert_eq!(stats.deleted_files, 2);
    assert_eq!(stats.failed_files, 1);
    assert_eq!(stats.errors, vec!["Failed to delete /v/b: denied".to_string()]);
    let d = device("usb", "E:\\", DeviceType::UsbDrive);
    let r = WipeResult::from_stats("usb", &d, stats.clone());
    assert!(!r.success);
    assert_eq!(r.device_name, "Test Device");
    let ok = WipeResult::from_stats("usb", &d, WipeStats::default());
    assert!(ok.success);
}

#[test]
fn linux_mount_table() {
    let detector = RemovableMediaDetector::new();
    let mounts = "proc /proc proc rw 0 0\n/dev/sda1 / ext4 rw 0 0\n/dev/sdb1 /media/user/STICK vfat rw 0 0\n/dev/sdc1 /mnt/backup ntfs rw 0 0\n/dev/nvme0n1 /media/x ext4 rw 0 0\n/dev/sdd1 /mediax vfat rw\n";
    let devices = detector.parse_linux_mounts(mounts, 5).unwrap();
    assert_eq!(devices.len(), 2);
    assert_eq!(devices[0].device_id, "/dev/sdb1");
    assert_eq!(devices[0].mount_point, "/media/user/STICK");
    assert_eq!(devices[0].device_name, "STICK");
    assert_eq!(devices[0].file_system, "vfat");
    assert_eq!(devices[0].device_type, DeviceType::UsbDrive);
    assert_eq!(devices[0].mount_time, 5);
    assert_eq!(devices[1].device_id, "/dev/sdc1");
    assert_eq!(devices[1].device_name, "backup");
    assert!(detector.parse_linux_mounts("", 0).unwrap().is_empty());
}

#[test]
fn windows_drive_listing() {
    let detector = RemovableMediaDetector::new();
    let out = "\r\nDeviceID VolumeName Size FreeSpace FileSystem\r\n-------- ---------- ---- --------- ----------\r\nE: STICK 16000000000 8000000000 FAT32\r\nF: X\r\nG: CARD notanumber 12 exFAT\r\n";
    let devices = detector.parse_windows_drives(out, 9).unwrap();
    assert_eq!(devices.len(), 2);
    assert_eq!(devices[0].device_id, "E:");
    assert_eq!(devices[0].mount_point, "E:");
    assert_eq!(devices[0].device_name, "STICK");
    assert_eq!(devices[0].total_size_bytes, 16000000000);
    assert_eq!(devices[0].free_space_bytes, 8000000000);
    assert_eq!(devices[0].file_system, "FAT32");
    assert_eq!(devices[1].total_size_bytes, 0);
    assert_eq!(devices[1].free_space_bytes, 12);
    assert!(detector.parse_windows_drives("a\nb\nc", 0).unwrap().is_empty());
}

#[test]
fn macos_volume_information() {
    let detector = RemovableMediaDetector::new();
    let df = "Filesystem 1024-blocks Used Available Capacity Mounted on\n/dev/disk4s1 15000 100 14900 1% /Volumes/STICK\n";
    let info = "   Device Node:  /dev/disk4s1\n   File System Personality:   MS-DOS FAT32\n   Protocol: USB\n   Removable Media: Yes\n";
    let (total, free, fs) = detector.get_macos_fs_info(Some(df), Some(info)).unwrap();
    assert_eq!(total, 15000 * 1024);
    assert_eq!(free, 14900 * 1024);
    assert_eq!(fs, "MS-DOS FAT32");
    let (t, f, fs) = detector.get_macos_fs_info(None, None).unwrap();
    assert_eq!((t, f, fs.as_str()), (0, 0, "unknown"));
    let (_, _, fs) = detector.get_macos_fs_info(Some("only one line"), Some("Type (Bundle): Unknown\nwith APFS inside")).unwrap();
    assert_eq!(fs, "APFS");
    let (_, _, fs) = detector.get_macos_fs_info(None, Some("Mac OS Extended (Journaled)")).unwrap();
    assert_eq!(fs, "HFS+");
    assert!(detector.is_external_volume(Some(info), "/Volumes/STICK"));
    assert!(!detector.is_external_volume(Some("Internal: Yes"), "/Volumes/usb"));
    assert!(detector.is_external_volume(None, "/Volumes/My USB"));
    assert!(!detector.is_external_volume(None, "/Volumes/Work"));
    assert_eq!(detector.detect_macos_device_type(Some(info), "/Volumes/STICK"), DeviceType::ExternalHdd);
    assert_eq!(detector.detect_macos_device_type(Some("Protocol: USB\nSD Card Reader"), "/x"), DeviceType::SdCard);
    assert_eq!(detector.detect_macos_device_type(Some("protocol: thunderbolt"), "/x"), DeviceType::ExternalHdd);
    assert_eq!(detector.detect_macos_device_type(None, "/Volumes/Backup"), DeviceType::ExternalHdd);
    assert_eq!(detector.detect_macos_device_type(None, "/Volumes/Photos"), DeviceType::Unknown);
    assert!(detector.is_system_volume("Macintosh HD"));
    assert!(detector.is_system_volume(".Trashes"));
    assert!(!detector.is_system_volume("STICK"));
}

#[test]
fn macos_and_linux_devices() {
    let detector = RemovableMediaDetector::new();
    let d = detector.create_macos_device("/Volumes/My Stick", None, None, 42, 0xABCD_1234);
    assert_eq!(d.device_id, "usb_my_stick");
    assert_eq!(d.device_name, "My Stick");
    assert_eq!(d.file_system, "unknown");
    assert_eq!(d.mount_time, 42);
    let unnamed = detector.create_macos_device("/Volumes/NO NAME", None, None, 42, 0xABCD_00f1);
    assert_eq!(unnamed.device_id, "usb_f1");
    let l = detector.create_linux_device("/media/user/CARD", 3);
    assert_eq!(l.device_id, "linux_CARD");
    assert_eq!(l.device_type, DeviceType::Unknown);
}
