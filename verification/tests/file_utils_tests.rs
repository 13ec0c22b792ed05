use hadron_core::file_utils::{extract_strings, to_hex, DirectoryWalker, FileInfo, FileScanner};

fn info(path: &str, size: u64, ext: Option<&str>) -> FileInfo {
    FileInfo {
        path: path.to_string(),
        size,
        modified: 0,
        created: 0,
        is_executable: false,
        extension: ext.map(|e| e.to_string()),
        mime_type: None,
    }
}

fn pe_bytes() -> Vec<u8> {
    let mut pe_content = vec![0u8; 64];
    pe_content[0] = 0x4D;
    pe_content[1] = 0x5A;
    pe_content[60] = 60;
    pe_content.extend_from_slice(&[0x50, 0x45, 0x00, 0x00]);
    pe_content
}

#[test]
fn test_file_scanner_creation() {
    let scanner = FileScanner::new();
    assert_eq!(scanner.max_file_size(), 100 * 1024 * 1024);
    assert_eq!(scanner.buffer_size(), 64 * 1024);
}

#[test]
fn test_file_info() {
    let scanner = FileScanner::new();
    let file_info = scanner.get_file_info("/tmp/x/test.txt", 12, 5, 4, Some(0o644));
    assert_eq!(file_info.path, "/tmp/x/test.txt");
    assert_eq!(file_info.size, 12);
    assert_eq!(file_info.extension, Some("txt".to_string()));
    assert!(!file_info.is_executable);
    assert_eq!(file_info.mime_type, Some("text/plain".to_string()));
}

#[test]
fn test_hash_calculation() {
    let scanner = FileScanner::new();
    let hashes = scanner.calculate_hashes(b"test content");
    assert!(!hashes.sha256.is_empty());
    assert!(!hashes.md5.is_empty());
    assert!(!hashes.sha1.is_empty());
    assert_eq!(hashes.sha256.len(), 64);
}

#[test]
fn test_should_scan_file() {
    let scanner = FileScanner::new().with_excluded_extensions(vec!["tmp".to_string(), "log".to_string()]);
    assert!(scanner.should_scan_file(&info("test.txt", 1024, Some("txt"))));
    assert!(!scanner.should_scan_file(&info("test.tmp", 1024, Some("tmp"))));
}

#[test]
fn pe_headers_are_recognised() {
    let scanner = FileScanner::new();
    assert!(scanner.is_pe_file(&pe_bytes()));
}

#[test]
fn test_string_extraction() {
    let content = b"Hello\x00World\x00This is a test\x00\xFF\xFE";
    let strings = extract_strings(content, 4);
    assert!(strings.contains(&"Hello".to_string()));
    assert!(strings.contains(&"World".to_string()));
    assert!(strings.contains(&"This is a test".to_string()));
}

#[test]
fn known_digests() {
    let scanner = FileScanner::new();
    let h = scanner.calculate_hashes(b"abc");
    assert_eq!(h.sha256, "ba7816bf8f01cfea414140de5dae2223b00361a396177a9cb410ff61f20015ad");
    assert_eq!(h.md5, "900150983cd24fb0d6963f7d28e17f72");
    assert_eq!(h.sha1, "a9993e364706816aba3e25717850c26c9cd0d89d");
    assert_eq!(
        scanner.calculate_sha256(b""),
        "e3b0c44298fc1c149afbf4c8996fb92427ae41e4649b934ca495991b7852b855"
    );
}

#[test]
fn hex_rendering() {
    assert_eq!(to_hex(&[0x00, 0x0f, 0xa0, 0xff]), "000fa0ff");
    assert_eq!(to_hex(&[]), "");
}

#[test]
fn scan_decisions_follow_size_extension_and_paths() {
    let scanner = FileScanner::new()
        .with_max_file_size(100)
        .with_excluded_paths(vec!["/var/cache".to_string()]);
    assert!(scanner.should_scan_file(&info("/home/a.bin", 100, Some("bin"))));
    assert!(!scanner.should_scan_file(&info("/home/a.bin", 101, Some("bin"))));
    assert!(!scanner.should_scan_file(&info("/home/a.bak", 1, Some("bak"))));
    assert!(!scanner.should_scan_file(&info("/var/cache/x/y", 1, None)));
    assert!(scanner.should_scan_file(&info("/var/cacheX/y", 1, None)));
    let s2 = FileScanner::new().with_buffer_size(16);
    assert_eq!(s2.buffer_size(), 16);
    assert_eq!(s2.max_file_size(), 100 * 1024 * 1024);
}

#[test]
fn executables_by_extension_or_mode() {
    let scanner = FileScanner::new();
    assert!(scanner.is_executable_file("C:/x/SETUP.EXE", None));
    assert!(scanner.is_executable_file("run.ps1", Some(0o644)));
    assert!(!scanner.is_executable_file("notes.txt", Some(0o644)));
    assert!(scanner.is_executable_file("script", Some(0o755)));
    assert!(scanner.is_executable_file("script", Some(0o001)));
    assert!(!scanner.is_executable_file("script", None));
}

#[test]
fn mime_types_by_extension() {
    let scanner = FileScanner::new();
    assert_eq!(scanner.detect_mime_type("a.PDF"), Some("application/pdf".to_string()));
    assert_eq!(scanner.detect_mime_type("a.dll"), Some("application/x-msdownload".to_string()));
    assert_eq!(scanner.detect_mime_type("a.htm"), Some("text/html".to_string()));
    assert_eq!(scanner.detect_mime_type("a.7z"), Some("application/x-7z-compressed".to_string()));
    assert_eq!(scanner.detect_mime_type("a.avi"), Some("video/x-msvideo".to_string()));
    assert_eq!(scanner.detect_mime_type("a.unknown"), None);
    assert_eq!(scanner.detect_mime_type("Makefile"), None);
}

#[test]
fn pe_detection_rejects_broken_headers() {
    let scanner = FileScanner::new();
    let good = pe_bytes();
    assert!(!scanner.is_pe_file(&good[..64]));
    let mut bad_mz = good.clone();
    bad_mz[1] = 0;
    assert!(!scanner.is_pe_file(&bad_mz));
    let mut far = good.clone();
    far[60] = 200;
    assert!(!scanner.is_pe_file(&far));
    assert!(!scanner.is_pe_file(b"MZ"));
}

#[test]
fn strings_need_the_minimum_length() {
    assert_eq!(extract_strings(b"ab\x00abcd\x01abc", 3), vec!["abcd".to_string(), "abc".to_string()]);
    assert_eq!(extract_strings(b"", 1), Vec::<String>::new());
    assert_eq!(extract_strings(b"\x00\x00", 0), vec!["".to_string(), "".to_string(), "".to_string()]);
}

#[test]
fn test_directory_walker() {
    let walker = DirectoryWalker::new();
    assert_eq!(walker.max_depth(), None);
    assert!(!walker.follow_symlinks());
    assert!(walker.should_enter("/data/subdir", 1));
    assert!(!walker.should_enter("C:/Windows", 1));
    assert!(!walker.should_enter("/mnt/$Recycle.Bin", 3));
    assert!(walker.should_descend(false));
    assert!(!walker.should_descend(true));
}

#[test]
fn walker_limits() {
    let walker = DirectoryWalker::new()
        .with_max_depth(2)
        .with_follow_symlinks(true)
        .with_excluded_dirs(vec!["node_modules".to_string()]);
    assert_eq!(walker.max_depth(), Some(2));
    assert!(walker.should_enter("/p", 2));
    assert!(!walker.should_enter("/p", 3));
    assert!(!walker.should_enter("/p/node_modules", 1));
    assert!(walker.should_enter("/Windows", 1));
    assert!(walker.should_descend(true));
}

#[test]
fn file_utils_test_pe_file_detection() {
    let mut pe_content = vec![0u8; 64];
    pe_content[0] = 0x4D;
    pe_content[1] = 0x5A;
    pe_content[60] = 60;
    pe_content[61] = 0;
    pe_content[62] = 0;
    pe_content[63] = 0;
    pe_content.extend_from_slice(&[0x50, 0x45, 0x00, 0x00]);
    let scanner = FileScanner::new();
    assert!(scanner.is_pe_file(&pe_content));
}
