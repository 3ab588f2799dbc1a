use shielddesk_agent::config::AgentConfig;
use shielddesk_agent::digest::{content_digest, hash_bytes};
use shielddesk_agent::error::{IOError, InitializationError};
use shielddesk_agent::mac;
use shielddesk_agent::reporter::{Body, Reporter};
use shielddesk_agent::scan::{FileData, FileRead, Listed, ScanResult};
use shielddesk_agent::windows::scanner::FileScanner;

fn reporter() -> Reporter {
    let config = AgentConfig {
        api_url: "https://api.test.com".to_string(),
        ..Default::default()
    };
    Reporter::new(&config).unwrap()
}

fn data(contents: &[u8]) -> FileData {
    FileData { size: contents.len() as u64, contents: contents.to_vec() }
}

fn listed(path: &str, is_file: bool) -> Listed {
    Listed { path: Some(path.to_string()), is_file }
}

fn read(path: &str, contents: Option<&[u8]>) -> FileRead {
    FileRead {
        path: path.to_string(),
        outcome: match contents {
            Some(contents) => Ok(data(contents)),
            None => Err(IOError::Unreadable),
        },
    }
}

fn confidence(result: &ScanResult) -> f32 {
    result.confidence_percent as f32 / 100.0
}

#[test]
fn test_scanner_creation() {
    let scanner = FileScanner::new("test-device");
    assert!(scanner.is_ok());
}

#[test]
fn mod_test_scanner_creation() {
    let scanner = mac::scanner::FileScanner::new("test-device", Some("/tmp/shielddesk-quarantine"));
    assert!(scanner.is_ok());
}

#[test]
fn test_should_scan() {
    let scanner = FileScanner::new("test-device").unwrap();
    assert!(scanner.should_scan("test.exe"));
    assert!(scanner.should_scan("library.dll"));
    assert!(!scanner.should_scan("document.txt"));
}

#[test]
fn should_scan_by_extension() {
    let scanner = FileScanner::new("test-device").unwrap();
    assert!(scanner.should_scan("evil.exe"));
    assert!(!scanner.should_scan("report.txt"));
    for ext in [".exe", ".dll", ".scr", ".vbs", ".bat", ".ps1", ".com", ".msi", ".app", ".jar"] {
        assert!(scanner.should_scan(&format!("C:\\Users\\a\\file{ext}")));
        assert!(scanner.should_scan(ext));
    }
    assert!(!scanner.should_scan("file.EXE"));
    assert!(!scanner.should_scan("file.exe.txt"));
    assert!(!scanner.should_scan("exe"));
    assert!(!scanner.should_scan(""));
}

#[test]
fn scanners_start_enabled() {
    let scanner = FileScanner::new("test-device").unwrap();
    assert_eq!(scanner.device_id(), "test-device");
    assert!(scanner.is_enabled());
    let scanner = mac::scanner::FileScanner::new("test-device", Some("/q")).unwrap();
    assert_eq!(scanner.device_id(), "test-device");
    assert_eq!(scanner.quarantine_dir(), "/q");
    assert!(scanner.is_enabled());
}

#[test]
fn mac_scanner_needs_a_quarantine_directory() {
    let scanner = mac::scanner::FileScanner::new("test-device", None);
    assert!(matches!(scanner, Err(InitializationError::Unavailable)));
}

#[test]
fn system_paths_in_order() {
    assert_eq!(
        FileScanner::scan_paths(),
        vec!["C:\\Windows\\System32", "C:\\Program Files", "C:\\Users", "C:\\ProgramData"]
    );
}

#[test]
fn windows_threats() {
    let scanner = FileScanner::new("test-device").unwrap();
    assert!(scanner.check_for_threats("C:\\Users\\a\\AppData\\Local\\Temp\\evil.exe", "h"));
    assert!(scanner.check_for_threats("C:\\Temp\\lib.dll", "h"));
    assert!(!scanner.check_for_threats("C:\\Temp\\notes.txt", "h"));
    assert!(!scanner.check_for_threats("C:\\Program Files\\app\\app.exe", "h"));
    // "temp" in another case is not the temporary directory
    assert!(!scanner.check_for_threats("C:\\temp\\evil.exe", "h"));
    assert!(scanner.check_for_threats("C:\\Users\\a\\suspicious.txt", "h"));
    assert!(scanner.check_for_threats("C:\\Users\\a\\SUSPICIOUS.txt", "h"));
    assert!(scanner.check_for_threats("C:\\Users\\a\\VerySuspiciousFile", "h"));
    assert!(!scanner.check_for_threats("C:\\Users\\a\\report.txt", "h"));
    assert!(!scanner.check_for_threats("", ""));
}

#[test]
fn windows_rule_on_lowercase_path() {
    assert!(FileScanner::judge_path("C:\\Temp\\a.exe", "c:\\temp\\a.exe"));
    assert!(FileScanner::judge_path("x", "suspicious"));
    // the marker is looked for in the second argument only
    assert!(!FileScanner::judge_path("suspicious", "x"));
    assert!(!FileScanner::judge_path("SUSPICIOUS", "SUSPICIOUS"));
}

#[test]
fn mac_threats() {
    let scanner = mac::scanner::FileScanner::new("test-device", Some("/q")).unwrap();
    for ext in [".exe", ".dll", ".scr", ".vbs", ".bat"] {
        assert!(scanner.check_for_threats(&format!("/Users/a/file{ext}"), "h"));
    }
    assert!(scanner.check_for_threats("/tmp/a.zip", "h"));
    assert!(scanner.check_for_threats("/private/tmp/a.dmg", "h"));
    assert!(scanner.check_for_threats("/Users/a/Downloads/a.dmg", "h"));
    assert!(!scanner.check_for_threats("/Users/a/Documents/a.zip", "h"));
    assert!(!scanner.check_for_threats("/Users/a/downloads/a.zip", "h"));
    assert!(!scanner.check_for_threats("/tmp/a.txt", "h"));
    assert!(!scanner.check_for_threats("/Users/a/report.txt", "h"));
    assert!(!scanner.check_for_threats("/Users/a/file.EXE", "h"));
}

#[test]
fn scan_of_executable_in_temp_directory_finds_threat() {
    let scanner = FileScanner::new("test-device").unwrap();
    let path = "C:\\Users\\a\\AppData\\Local\\Temp\\evil.exe";
    let result = scanner.scan_file(path, &Ok(data(b"MZ"))).unwrap();
    assert!(result.threat_detected);
    assert_eq!(confidence(&result), 0.85);
    assert_eq!(result.confidence_percent, 85);
    assert_eq!(result.threat_name.as_deref(), Some("Suspicious.File"));
    assert_eq!(result.threat_type.as_deref(), Some("malware"));
    assert_eq!(result.alarm(), Some(("Suspicious.File", "malware")));
    assert_eq!(result.device_id, "test-device");
    assert_eq!(result.file_path, path);
    assert_eq!(result.file_size, 2);
    assert_eq!(result.file_hash, content_digest(b"MZ"));
    assert_eq!(result.scan_id.len(), 36);
    assert!(chrono::DateTime::parse_from_rfc3339(&result.timestamp).is_ok());

    let scanner = mac::scanner::FileScanner::new("test-device", Some("/q")).unwrap();
    let result = scanner.scan_file("/tmp/evil.exe", &Ok(data(b"MZ"))).unwrap();
    assert!(result.threat_detected);
    assert_eq!(confidence(&result), 0.85);
}

#[test]
fn scan_of_text_file_finds_nothing() {
    let scanner = FileScanner::new("test-device").unwrap();
    let result = scanner.scan_file("C:\\Users\\a\\report.txt", &Ok(data(b"hello"))).unwrap();
    assert!(!result.threat_detected);
    assert_eq!(confidence(&result), 0.0);
    assert_eq!(result.threat_name, None);
    assert_eq!(result.threat_type, None);
    assert_eq!(result.alarm(), None);
    assert_eq!(result.file_size, 5);

    let scanner = mac::scanner::FileScanner::new("test-device", Some("/q")).unwrap();
    let result = scanner.scan_file("/Users/a/report.txt", &Ok(data(b"hello"))).unwrap();
    assert!(!result.threat_detected);
    assert_eq!(confidence(&result), 0.0);
    assert_eq!(result.threat_name, None);
}

#[test]
fn scan_of_unreadable_file_fails() {
    let scanner = FileScanner::new("test-device").unwrap();
    let result = scanner.scan_file("C:\\Temp\\evil.exe", &Err(IOError::Unreadable));
    assert!(matches!(result, Err(IOError::Unreadable)));
    let scanner = mac::scanner::FileScanner::new("test-device", Some("/q")).unwrap();
    let result = scanner.scan_file("/tmp/evil.exe", &Err(IOError::Unreadable));
    assert!(matches!(result, Err(IOError::Unreadable)));
}

#[test]
fn each_scan_gets_a_new_record() {
    let scanner = FileScanner::new("test-device").unwrap();
    let a = scanner.scan_file("C:\\a.txt", &Ok(data(b"x"))).unwrap();
    let b = scanner.scan_file("C:\\a.txt", &Ok(data(b"x"))).unwrap();
    assert_ne!(a.scan_id, b.scan_id);
    assert_eq!(a.file_hash, b.file_hash);
}

#[test]
fn size_comes_from_the_metadata() {
    let scanner = FileScanner::new("test-device").unwrap();
    let file = FileData { size: 1 << 40, contents: vec![1, 2, 3] };
    let result = scanner.scan_file("C:\\big.bin", &Ok(file)).unwrap();
    assert_eq!(result.file_size, 1 << 40);
}

#[test]
fn windows_pass_chooses_scannable_files() {
    let scanner = FileScanner::new("test-device").unwrap();
    let listing = vec![
        listed("C:\\Windows\\System32\\a.exe", true),
        listed("C:\\Windows\\System32\\b.txt", true),
        listed("C:\\Windows\\System32\\dir.exe", false),
        Listed { path: None, is_file: true },
        listed("C:\\Users\\c.ps1", true),
    ];
    assert_eq!(
        scanner.scan_system_paths(&listing),
        vec!["C:\\Windows\\System32\\a.exe".to_string(), "C:\\Users\\c.ps1".to_string()]
    );
    assert!(scanner.scan_system_paths(&Vec::new()).is_empty());
}

#[test]
fn mac_pass_chooses_every_file() {
    let scanner = mac::scanner::FileScanner::new("test-device", Some("/q")).unwrap();
    let listing = vec![
        listed("/q/a.exe", true),
        listed("/q/b.txt", true),
        listed("/q/sub", false),
        Listed { path: None, is_file: true },
    ];
    assert_eq!(
        scanner.scan_quarantine_directory(&listing),
        vec!["/q/a.exe".to_string(), "/q/b.txt".to_string()]
    );
}

#[test]
fn pass_reports_threats_and_skips_unreadable_files() {
    let scanner = FileScanner::new("test-device").unwrap();
    let reads = vec![
        read("C:\\Temp\\a.exe", Some(b"a")),
        read("C:\\Temp\\gone.exe", None),
        read("C:\\Program Files\\b.exe", Some(b"b")),
        read("C:\\Temp\\c.dll", Some(b"c")),
    ];
    let cycle = scanner.run_cycle(&reporter(), &reads);
    let paths: Vec<&str> = cycle.results.iter().map(|r| r.file_path.as_str()).collect();
    assert_eq!(paths, vec!["C:\\Temp\\a.exe", "C:\\Program Files\\b.exe", "C:\\Temp\\c.dll"]);
    let flags: Vec<bool> = cycle.results.iter().map(|r| r.threat_detected).collect();
    assert_eq!(flags, vec![true, false, true]);
    assert_eq!(cycle.requests.len(), 2);
    for request in &cycle.requests {
        assert_eq!(request.url, "https://api.test.com/api/v1/threats");
        match &request.body {
            Body::Threat(report) => {
                assert_eq!(report.device_id, "test-device");
                assert_eq!(report.threat_name, "Suspicious.File");
                assert_eq!(report.threat_type, "malware");
            }
            _ => panic!("not a threat report"),
        }
    }
}

#[test]
fn mac_pass_reports_threats_and_skips_unreadable_files() {
    let scanner = mac::scanner::FileScanner::new("test-device", Some("/q")).unwrap();
    let reads = vec![
        read("/q/gone.exe", None),
        read("/q/a.txt", Some(b"a")),
        read("/q/b.bat", Some(b"b")),
    ];
    let cycle = scanner.run_cycle(&reporter(), &reads);
    assert_eq!(cycle.results.len(), 2);
    assert!(!cycle.results[0].threat_detected);
    assert!(cycle.results[1].threat_detected);
    assert_eq!(cycle.requests.len(), 1);
    let cycle = scanner.run_cycle(&reporter(), &Vec::new());
    assert!(cycle.results.is_empty());
    assert!(cycle.requests.is_empty());
}

#[test]
fn stopped_scanner_does_nothing() {
    let mut scanner = FileScanner::new("test-device").unwrap();
    scanner.stop();
    scanner.stop();
    assert!(!scanner.is_enabled());
    assert_eq!(scanner.device_id(), "test-device");
    assert!(scanner.scan_system_paths(&vec![listed("C:\\a.exe", true)]).is_empty());
    let cycle = scanner.run_cycle(&reporter(), &vec![read("C:\\Temp\\a.exe", Some(b"a"))]);
    assert!(cycle.results.is_empty());
    assert!(cycle.requests.is_empty());

    let mut scanner = mac::scanner::FileScanner::new("test-device", Some("/q")).unwrap();
    scanner.stop();
    assert!(!scanner.is_enabled());
    assert_eq!(scanner.quarantine_dir(), "/q");
    assert!(scanner.scan_quarantine_directory(&vec![listed("/q/a.exe", true)]).is_empty());
    let cycle = scanner.run_cycle(&reporter(), &vec![read("/q/a.exe", Some(b"a"))]);
    assert!(cycle.results.is_empty());
    assert!(cycle.requests.is_empty());
}

#[test]
fn digest_known_values() {
    assert_eq!(hash_bytes(b""), 0xcbf29ce484222325);
    assert_eq!(hash_bytes(b"a"), 0xaf63dc4c8601ec8c);
    assert_eq!(hash_bytes(b"foobar"), 0x85944171f73967e8);
    assert_eq!(content_digest(b""), "hash_cbf29ce484222325");
    assert_eq!(content_digest(b"a"), "hash_af63dc4c8601ec8c");
    assert_eq!(content_digest(b"foobar"), "hash_85944171f73967e8");
}

#[test]
fn digest_depends_on_content_only() {
    assert_eq!(content_digest(b"same bytes"), content_digest(b"same bytes"));
    assert_ne!(content_digest(b"same bytes"), content_digest(b"same bytez"));
    assert_ne!(content_digest(b"ab"), content_digest(b"ba"));
    assert_ne!(content_digest(&[0u8; 8192]), content_digest(&[0u8; 8193]));
    // leading zero digits are kept
    let digest = content_digest(&[0xd5, 0x6b, 0xb9, 0x53, 0x42, 0x87, 0x08, 0x36]);
    assert_eq!(digest.len(), 21);
    assert!(digest.starts_with("hash_"));
}
