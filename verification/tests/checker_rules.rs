use health_speed_checker::checkers::bloatware::{BloatwareDetector, StartupSource};
use health_speed_checker::checkers::bottleneck::{BottleneckAnalyzer, RamFinding, GIGABYTE};
use health_speed_checker::checkers::firewall::FirewallChecker;
use health_speed_checker::checkers::network::NetworkChecker;
use health_speed_checker::checkers::os_update::OsUpdateChecker;
use health_speed_checker::checkers::ports::{
    get_port_description, get_service_name, is_risky_port, is_whitelisted_port, port_severity,
    PortScanner,
};
use health_speed_checker::checkers::process::{
    is_system_process, sanitize_id, ProcessMonitor,
};
use health_speed_checker::checkers::smart_disk::{DriveHealth, SmartDiskChecker};
use health_speed_checker::checkers::startup::{is_known_bloatware, StartupAnalyzer};
use health_speed_checker::checkers::storage::{
    classify_drive_type, fragmentation_severity, percent_free, space_severity, DriveInfo,
    DriveType, StorageChecker, StoragePlan,
};
use health_speed_checker::{
    FixError, ImpactCategory, IssueSeverity, PortInfo, ProcessInfo, ScanContext, ScanOptions,
    StartupItem,
};

fn chars(s: &str) -> Vec<char> {
    s.chars().collect()
}

fn port(number: u16) -> PortInfo {
    PortInfo { port: number, protocol: "TCP".to_string(), service: get_service_name(number), process: None }
}

fn number(n: u64) -> serde_json::Value {
    serde_json::Value::from(n)
}

#[test]
fn firewall_reports_a_disabled_firewall() {
    let checker = FirewallChecker;
    assert!(checker.reports_on("State                                 ON"));
    assert!(!checker.reports_on("State                                 OFF"));
    assert!(checker.issue_for(true, serde_json::Value::Null).is_none());
    let issue = checker.issue_for(false, number(1)).unwrap();
    assert_eq!(issue.id, "firewall_disabled");
    assert_eq!(issue.severity, IssueSeverity::Critical);
    assert_eq!(issue.title, "Windows Firewall is OFF");
    assert_eq!(issue.impact_category, ImpactCategory::Security);
    let fix = issue.fix.unwrap();
    assert_eq!(fix.action_id, "enable_firewall");
    assert_eq!(fix.label, "Enable Firewall");
    assert!(fix.is_auto_fix);
    assert_eq!(fix.params, number(1));
    assert!(checker.owns_action("enable_firewall"));
    assert!(!checker.owns_action("enable_firewall2"));
    assert!(!checker.owns_action(""));
}

#[test]
fn startup_reports_too_many_programs() {
    let checker = StartupAnalyzer;
    assert!(checker.excess_issue(15, serde_json::Value::Null).is_none());
    assert!(checker.excess_issue(0, serde_json::Value::Null).is_none());
    let issue = checker.excess_issue(16, number(16)).unwrap();
    assert_eq!(issue.id, "excessive_startup_items");
    assert_eq!(issue.severity, IssueSeverity::Warning);
    assert_eq!(issue.title, "16 apps slow your boot");
    assert_eq!(
        issue.description,
        "You have 16 programs starting with Windows. Each adds 0.5-2 seconds to boot time. Consider disabling unnecessary ones."
    );
    let fix = issue.fix.unwrap();
    assert_eq!(fix.action_id, "optimize_startup");
    assert!(!fix.is_auto_fix);
    assert_eq!(fix.params, number(16));
}

#[test]
fn startup_knows_bloatware_without_regard_to_case() {
    assert!(is_known_bloatware("McAfee Security"));
    assert!(is_known_bloatware("NORTON"));
    assert!(is_known_bloatware("Candy Crush Saga"));
    assert!(is_known_bloatware("my skype helper"));
    assert!(!is_known_bloatware("Editor"));
    assert!(!is_known_bloatware(""));
    let checker = StartupAnalyzer;
    let item = StartupItem {
        name: "McAfee Security".to_string(),
        path: "C:\\mcafee.exe".to_string(),
        estimated_delay_ms: 1000,
        can_disable: true,
    };
    let issue = checker.bloatware_issue(&item, serde_json::Value::Null).unwrap();
    assert_eq!(issue.id, "bloatware_startup_mcafee_security");
    assert_eq!(issue.severity, IssueSeverity::Info);
    assert_eq!(issue.title, "McAfee Security is known bloatware");
    let fix = issue.fix.unwrap();
    assert_eq!(fix.action_id, "disable_startup_McAfee Security");
    assert_eq!(fix.label, "Disable");
    assert!(fix.is_auto_fix);
    let plain = StartupItem { name: "Editor".to_string(), ..item };
    assert!(checker.bloatware_issue(&plain, serde_json::Value::Null).is_none());
}

#[test]
fn startup_follows_the_exclusion() {
    let checker = StartupAnalyzer;
    let mut options = ScanOptions::default();
    assert!(checker.applies(&ScanContext { options }));
    options.exclude_startup = true;
    assert!(!checker.applies(&ScanContext { options }));
}

#[test]
fn startup_listing_is_read_after_two_headings() {
    let checker = StartupAnalyzer;
    let items = checker.items_from_listing("\nNode,Command,Name\nPC,Updater,C:\\u.exe\nshort,line\nPC,Chat,C:\\c.exe,extra\n");
    assert_eq!(items.len(), 2);
    assert_eq!(items[0].name, "Updater");
    assert_eq!(items[0].path, "C:\\u.exe");
    assert_eq!(items[0].estimated_delay_ms, 1000);
    assert!(items[0].can_disable);
    assert_eq!(items[1].name, "Chat");
    assert!(checker.items_from_listing("").is_empty());
    assert!(checker.items_from_listing("a,b,c\nd,e,f").is_empty());
    assert!(checker.parse_startup_line(&chars("a,b")).is_none());
}

#[test]
fn processes_of_the_system_are_known() {
    assert!(is_system_process("svchost.exe"));
    assert!(is_system_process("SYSTEM"));
    assert!(is_system_process("C:\\Windows\\lsass.exe"));
    assert!(is_system_process("systemd-journald"));
    assert!(!is_system_process("browser.exe"));
    assert!(!is_system_process(""));
}

#[test]
fn process_names_become_identifiers() {
    assert_eq!(sanitize_id("Google Chrome (32).exe"), "google_chrome_32_exe");
    assert_eq!(sanitize_id("plain"), "plain");
    assert_eq!(sanitize_id(""), "");
    let monitor = ProcessMonitor;
    assert_eq!(monitor.high_cpu_id("My App.exe"), "high_cpu_my_app_exe");
    assert_eq!(monitor.high_memory_id("My App.exe"), "high_memory_my_app_exe");
}

#[test]
fn process_findings_go_by_the_thresholds() {
    let monitor = ProcessMonitor;
    let process = |name: &str, cpu: u32, memory: u64| ProcessInfo {
        pid: 1,
        name: name.to_string(),
        cpu_centipercent: cpu,
        memory_mb: memory,
    };
    let calm = monitor.findings_for(&process("app", 5000, 2048));
    assert!(!calm.high_cpu);
    assert!(!calm.high_memory);
    let busy = monitor.findings_for(&process("app", 5001, 2049));
    assert!(busy.high_cpu);
    assert!(busy.high_memory);
    let system = monitor.findings_for(&process("Svchost.exe", 9000, 9000));
    assert!(!system.high_cpu);
    assert!(!system.high_memory);
}

#[test]
fn process_lines_are_read() {
    let monitor = ProcessMonitor;
    let parsed = monitor.parse_process_line(&chars("PC,browser.exe,10,4242,4294967296")).unwrap();
    assert_eq!(parsed.name, "browser.exe");
    assert_eq!(parsed.pid, 4242);
    assert_eq!(parsed.memory_mb, 4096);
    assert_eq!(parsed.cpu_centipercent, 0);
    assert!(monitor.parse_process_line(&chars("PC,browser.exe,10,4242")).is_none());
    assert!(monitor.parse_process_line(&chars("PC,browser.exe,10,x,1")).is_none());
    assert!(monitor.parse_process_line(&chars("PC,browser.exe,10,4294967296,1")).is_none());
    assert!(monitor.parse_process_line(&chars("PC,b,10,1,18446744073709551616")).is_none());
}

#[test]
fn updates_are_counted_from_the_listing() {
    let checker = OsUpdateChecker;
    let current = checker.status_from_listing(2, "build".to_string());
    assert!(current.is_current);
    assert_eq!(current.pending_updates, 0);
    assert_eq!(current.current_build, "build");
    assert!(current.latest_build.is_none());
    assert!(checker.issue_for(&current, serde_json::Value::Null).is_none());
    assert!(checker.status_from_listing(0, String::new()).is_current);
    let behind = checker.status_from_listing(3, "build".to_string());
    assert!(!behind.is_current);
    assert_eq!(behind.pending_updates, 3);
    let issue = checker.issue_for(&behind, number(3)).unwrap();
    assert_eq!(issue.id, "windows_update_pending");
    assert_eq!(issue.severity, IssueSeverity::Warning);
    assert_eq!(issue.title, "3 Windows updates available");
    assert_eq!(issue.impact_category, ImpactCategory::Security);
    let fix = issue.fix.unwrap();
    assert_eq!(fix.action_id, "install_windows_updates");
    assert_eq!(fix.label, "Install Updates");
    assert!(!fix.is_auto_fix);
    assert_eq!(checker.pending_severity(5), IssueSeverity::Warning);
    assert_eq!(checker.pending_severity(6), IssueSeverity::Critical);
    let mut many = behind.clone();
    many.pending_updates = 6;
    assert_eq!(checker.issue_for(&many, number(6)).unwrap().severity, IssueSeverity::Critical);
}

#[test]
fn ports_have_their_services_and_risks() {
    assert_eq!(get_service_name(22), Some("SSH".to_string()));
    assert_eq!(get_service_name(3389), Some("RDP".to_string()));
    assert_eq!(get_service_name(8080), Some("HTTP-Alt".to_string()));
    assert_eq!(get_service_name(5900), None);
    for risky in [22u16, 23, 139, 445, 3389, 5900] {
        assert!(is_risky_port(&port(risky)));
        assert!(!is_whitelisted_port(&port(risky)));
    }
    assert!(!is_risky_port(&port(80)));
    for listed in [3000u16, 5000, 8000, 8080, 5432, 3306, 6379] {
        assert!(is_whitelisted_port(&port(listed)));
    }
    assert_eq!(port_severity(3389), IssueSeverity::Critical);
    assert_eq!(port_severity(22), IssueSeverity::Critical);
    assert_eq!(port_severity(23), IssueSeverity::Critical);
    assert_eq!(port_severity(445), IssueSeverity::Warning);
    assert_eq!(port_severity(139), IssueSeverity::Warning);
    assert_eq!(port_severity(5900), IssueSeverity::Info);
    assert_eq!(
        get_port_description(&port(23)),
        "Telnet is open. This is an insecure protocol and should be disabled."
    );
    assert_eq!(get_port_description(&port(5900)), "Port 5900 is open to network connections.");
}

#[test]
fn port_issues_name_the_port() {
    let scanner = PortScanner;
    let issue = scanner.issue_for(&port(3389), serde_json::Value::Null).unwrap();
    assert_eq!(issue.id, "port_open_3389");
    assert_eq!(issue.severity, IssueSeverity::Critical);
    assert_eq!(issue.title, "Port 3389 (RDP) is open");
    assert_eq!(issue.impact_category, ImpactCategory::Security);
    let fix = issue.fix.unwrap();
    assert_eq!(fix.action_id, "close_port_3389");
    assert_eq!(fix.label, "Close Port");
    assert!(!fix.is_auto_fix);
    let unnamed = scanner.issue_for(&port(5900), serde_json::Value::Null).unwrap();
    assert_eq!(unnamed.title, "Port 5900 (Unknown) is open");
    assert!(scanner.issue_for(&port(80), serde_json::Value::Null).is_none());
    assert!(scanner.issue_for(&port(8080), serde_json::Value::Null).is_none());
}

#[test]
fn port_scanner_follows_the_quick_flag() {
    let scanner = PortScanner;
    let mut options = ScanOptions::default();
    assert!(scanner.applies(&ScanContext { options }));
    options.quick = true;
    assert!(!scanner.applies(&ScanContext { options }));
}

#[test]
fn listening_ports_are_read_once_each() {
    let scanner = PortScanner;
    let listing = "Active Connections\n  TCP    0.0.0.0:3389    0.0.0.0:0    LISTENING\n  TCP    [::]:3389    [::]:0    LISTENING\n  TCP    0.0.0.0:445    0.0.0.0:0    LISTENING\n  TCP    0.0.0.0:49152    0.0.0.0:0    LISTENING\n  TCP    10.0.0.1:5000    10.0.0.2:443    ESTABLISHED\n";
    let ports = scanner.open_ports_from_listing(listing);
    let numbers: Vec<u16> = ports.iter().map(|p| p.port).collect();
    assert_eq!(numbers, vec![3389, 445]);
    assert_eq!(ports[0].protocol, "TCP");
    assert_eq!(ports[0].service, Some("RDP".to_string()));
    assert_eq!(ports[1].service, Some("SMB".to_string()));
    assert!(ports[0].process.is_none());
    assert_eq!(scanner.parse_listening_line(&chars("TCP 0.0.0.0:65535 x LISTENING")), Some(65535));
    assert_eq!(scanner.parse_listening_line(&chars("TCP 0.0.0.0:65536 x LISTENING")), None);
    assert_eq!(scanner.parse_listening_line(&chars("TCP 0.0.0.0:22 x CLOSED")), None);
    assert_eq!(scanner.parse_listening_line(&chars("LISTENING")), None);
    assert_eq!(scanner.parse_listening_line(&chars("TCP 22 LISTENING")), Some(22));
}

#[test]
fn bloatware_table_is_searched_in_order() {
    let table = BloatwareDetector::bloatware_patterns();
    assert_eq!(table.len(), 29);
    assert!(table.contains_key("spotify"));
    assert!(table.contains_key("nvidia"));
    assert!(!table.contains_key("Spotify"));
    assert!(!table.contains_key("spot"));
    assert_eq!(table.first_match("c:\\spotify\\spotify.exe"), Some(0));
    assert_eq!(table.first_match("steam and discord"), Some(1));
    assert_eq!(table.first_match("nothing known"), None);
    let entry = table.entry(17);
    assert_eq!(entry.pattern, "mcafee");
    assert_eq!(entry.name, "McAfee");
    assert_eq!(entry.severity, IssueSeverity::Critical);
}

#[test]
fn bloatware_issues_tell_their_source() {
    let detector = BloatwareDetector::new();
    let table = BloatwareDetector::bloatware_patterns();
    let entry = table.entry(7);
    let run = detector.issue_from(StartupSource::RunList, &entry);
    assert_eq!(run.id, "bloatware_onedrive");
    assert_eq!(run.severity, IssueSeverity::Warning);
    assert_eq!(run.title, "Unnecessary startup program: OneDrive sync");
    assert_eq!(
        run.description,
        "OneDrive sync is set to run at startup. This may slow down your boot time and consume system resources. Consider disabling it if you don't need it running constantly."
    );
    assert_eq!(run.impact_category, ImpactCategory::Performance);
    assert!(run.fix.is_none());
    let task = detector.issue_from(StartupSource::ScheduledTask, &entry);
    assert_eq!(task.id, "bloatware_task_onedrive");
    assert_eq!(task.title, "Scheduled bloatware task: OneDrive sync");
    assert_eq!(
        task.description,
        "OneDrive sync has scheduled tasks that run automatically. This may impact system performance."
    );
    let agent = detector.issue_from(StartupSource::LaunchAgent, &entry);
    assert_eq!(agent.id, "bloatware_onedrive");
    assert_eq!(agent.title, "Unnecessary launch agent: OneDrive sync");
    let service = detector.issue_from(StartupSource::SystemService, &entry);
    assert_eq!(service.id, "bloatware_onedrive");
    assert_eq!(
        service.description,
        "OneDrive sync service is enabled at startup. Consider disabling if not needed."
    );
    let autostart = detector.issue_from(StartupSource::Autostart, &entry);
    assert_eq!(autostart.id, "bloatware_autostart_onedrive");
    assert_eq!(autostart.title, "Autostart application: OneDrive sync");
}

#[test]
fn bloatware_fixes_act_on_known_patterns_only() {
    let detector = BloatwareDetector::new();
    assert_eq!(detector.fix_target("bloatware_spotify").unwrap(), "spotify");
    assert!(matches!(detector.fix_target("enable_firewall"), Err(FixError::NotApplicable)));
    assert!(matches!(detector.fix_target(""), Err(FixError::NotApplicable)));
    match detector.fix_target("bloatware_x\" /f & del") {
        Err(FixError::Failed(reason)) => {
            assert_eq!(reason, "Invalid bloatware pattern: x\" /f & del")
        }
        _ => panic!("an unknown pattern must fail"),
    }
    match detector.fix_target("bloatware_") {
        Err(FixError::Failed(reason)) => assert_eq!(reason, "Invalid bloatware pattern: "),
        _ => panic!("an empty pattern must fail"),
    }
    assert!(matches!(detector.fix_target("bloatware_task_spotify"), Err(FixError::Failed(_))));
}

#[test]
fn network_rounds_are_summarized() {
    let checker = NetworkChecker::new();
    assert_eq!(checker.summarize_round(300, 3), (100, true));
    assert_eq!(checker.summarize_round(301, 2), (150, true));
    assert_eq!(checker.summarize_round(0, 0), (999, false));
    assert_eq!(checker.summarize_round(500, 0), (999, false));
}

#[test]
fn network_latency_is_judged() {
    let checker = NetworkChecker::new();
    assert_eq!(checker.latency_severity(150), None);
    assert_eq!(checker.latency_severity(151), Some(IssueSeverity::Warning));
    assert_eq!(checker.latency_severity(300), Some(IssueSeverity::Warning));
    assert_eq!(checker.latency_severity(301), Some(IssueSeverity::Critical));
    assert!(checker.latency_issue(150, true).is_none());
    let slow = checker.latency_issue(200, true).unwrap();
    assert_eq!(slow.id, "network_high_latency");
    assert_eq!(slow.severity, IssueSeverity::Warning);
    assert_eq!(slow.title, "High Network Latency (200ms)");
    assert_eq!(
        slow.description,
        "Your network latency is 200ms. Good latency is under 50ms. This may cause lag in online activities."
    );
    assert!(slow.fix.is_none());
    let down = checker.latency_issue(999, false).unwrap();
    assert_eq!(down.id, "network_no_connection");
    assert_eq!(down.severity, IssueSeverity::Critical);
    assert_eq!(down.title, "No Internet Connection");
    assert_eq!(checker.latency_issue(10, false).unwrap().id, "network_no_connection");
}

#[test]
fn network_speed_is_judged() {
    let checker = NetworkChecker::new();
    assert_eq!(checker.speed_severity(999), Some(IssueSeverity::Critical));
    assert_eq!(checker.speed_severity(1000), Some(IssueSeverity::Warning));
    assert_eq!(checker.speed_severity(4999), Some(IssueSeverity::Warning));
    assert_eq!(checker.speed_severity(5000), None);
    assert_eq!(checker.speed_severity(0), Some(IssueSeverity::Critical));
}

#[test]
fn network_name_resolution_is_judged() {
    let checker = NetworkChecker::new();
    assert!(checker.dns_issue(100, true, false, serde_json::Value::Null).is_none());
    let slow = checker.dns_issue(101, true, false, number(0)).unwrap();
    assert_eq!(slow.id, "network_slow_dns");
    assert_eq!(slow.severity, IssueSeverity::Info);
    assert_eq!(slow.title, "Slow DNS Resolution (101ms)");
    let fix = slow.fix.unwrap();
    assert_eq!(fix.action_id, "fix_dns");
    assert_eq!(fix.label, "Show DNS Fix Instructions");
    assert!(!fix.is_auto_fix);
    let failed = checker.dns_issue(999, false, true, number(0)).unwrap();
    assert_eq!(failed.id, "network_dns_failure");
    assert_eq!(failed.severity, IssueSeverity::Critical);
    let fix = failed.fix.unwrap();
    assert_eq!(fix.label, "Change DNS to Cloudflare (1.1.1.1)");
    assert!(fix.is_auto_fix);
    let proxy = checker.proxy_issue();
    assert_eq!(proxy.id, "network_proxy_detected");
    assert_eq!(proxy.severity, IssueSeverity::Info);
    assert!(checker.owns_action("network_dns_failure"));
    assert!(checker.owns_action("network_slow_dns"));
    assert!(!checker.owns_action("fix_dns"));
}

#[test]
fn drive_health_is_classified() {
    let checker = SmartDiskChecker::new();
    assert_eq!(checker.classify_status("PC,Disk,1000,Pred Fail"), DriveHealth::Failing);
    assert_eq!(checker.classify_status("PC,Disk,1000,Error"), DriveHealth::Failing);
    assert_eq!(checker.classify_status("PC,Disk,1000,Degraded"), DriveHealth::Degraded);
    assert_eq!(checker.classify_status("PC,Disk,1000,Degraded Error"), DriveHealth::Failing);
    assert_eq!(checker.classify_status("PC,Disk,1000,OK"), DriveHealth::Healthy);
    assert!(checker.health_issue(DriveHealth::Healthy).is_none());
    let failing = checker.health_issue(DriveHealth::Failing).unwrap();
    assert_eq!(failing.id, "disk_smart_failure");
    assert_eq!(failing.severity, IssueSeverity::Critical);
    assert_eq!(failing.title, "Hard Drive Failure Predicted");
    let degraded = checker.health_issue(DriveHealth::Degraded).unwrap();
    assert_eq!(degraded.id, "disk_smart_degraded");
    assert_eq!(degraded.severity, IssueSeverity::Warning);
}

#[test]
fn drive_space_is_judged() {
    let checker = SmartDiskChecker::new();
    assert_eq!(checker.free_severity(4), Some(IssueSeverity::Critical));
    assert_eq!(checker.free_severity(5), Some(IssueSeverity::Warning));
    assert_eq!(checker.free_severity(9), Some(IssueSeverity::Warning));
    assert_eq!(checker.free_severity(10), None);
    assert_eq!(checker.used_severity(90), None);
    assert_eq!(checker.used_severity(91), Some(IssueSeverity::Warning));
    assert_eq!(checker.used_severity(95), Some(IssueSeverity::Warning));
    assert_eq!(checker.used_severity(96), Some(IssueSeverity::Critical));
    assert!(checker.free_space_issue("C:", 10).is_none());
    let low = checker.free_space_issue("C:", 7).unwrap();
    assert_eq!(low.id, "disk_low_space_C:");
    assert_eq!(low.severity, IssueSeverity::Warning);
    assert_eq!(low.title, "Low Disk Space on C:");
    assert_eq!(
        low.description,
        "Drive C: has only 7% free space. Free up disk space or your system may become unstable."
    );
    assert_eq!(checker.free_space_issue("C:", 0).unwrap().severity, IssueSeverity::Critical);
    assert!(checker.usage_issue("/", 90, "x").is_none());
    let full = checker.usage_issue("/var/log", 97, "Free up disk space soon.").unwrap();
    assert_eq!(full.id, "disk_low_space__var_log");
    assert_eq!(full.severity, IssueSeverity::Critical);
    assert_eq!(full.title, "Low Disk Space on /var/log");
    assert_eq!(full.description, "/var/log is 97% full. Free up disk space soon.");
    assert!(checker.owns_action("disk_low_space_C:"));
    assert!(!checker.owns_action("disk_smart_failure"));
}

#[test]
fn drive_listings_are_read() {
    let checker = SmartDiskChecker::new();
    assert_eq!(
        checker.parse_usage_line(&chars("/dev/sda1 100G 97G 3G 97% /")),
        Some((97, "/".to_string()))
    );
    assert_eq!(
        checker.parse_usage_line(&chars("tmpfs 1G 0 1G 0% /run extra /mnt")),
        Some((0, "/mnt".to_string()))
    );
    assert_eq!(checker.parse_usage_line(&chars("/dev/sda1 100G 97G 3G")), None);
    assert_eq!(checker.parse_usage_line(&chars("Filesystem Size Used Avail Use% Mounted on")), None);
    assert_eq!(checker.parse_usage_line(&chars("a b c d 256% /")), None);
    assert_eq!(
        checker.parse_space_line(&chars("PC,C:, 50 ,1000")),
        Some(("C:".to_string(), 5))
    );
    assert_eq!(checker.parse_space_line(&chars("PC,D:,999,1000,x")), Some(("D:".to_string(), 99)));
    assert_eq!(checker.parse_space_line(&chars("PC,C:,50,0")), None);
    assert_eq!(checker.parse_space_line(&chars("PC,C:,,1000")), None);
    assert_eq!(checker.parse_space_line(&chars("PC,C:,50")), None);
    assert_eq!(checker.parse_space_line(&chars("")), None);
    assert_eq!(
        checker.parse_space_line(&chars("PC,C:,18446744073709551615,18446744073709551615")),
        Some(("C:".to_string(), 100))
    );
}

#[test]
fn drive_types_are_classified() {
    assert_eq!(classify_drive_type("2"), DriveType::Removable);
    assert_eq!(classify_drive_type("3"), DriveType::Fixed);
    assert_eq!(classify_drive_type("5"), DriveType::CDRom);
    assert_eq!(classify_drive_type("4"), DriveType::Unknown);
    assert_eq!(classify_drive_type(""), DriveType::Unknown);
    let checker = StorageChecker::new();
    assert_eq!(checker.parse_drive_type(Some(&" 3 ")), DriveType::Fixed);
    assert_eq!(checker.parse_drive_type(Some(&"5\r")), DriveType::CDRom);
    assert_eq!(checker.parse_drive_type(Some(&"\u{a0}2\u{3000}")), DriveType::Removable);
    assert_eq!(checker.parse_drive_type(Some(&"x")), DriveType::Unknown);
    assert_eq!(checker.parse_drive_type(None), DriveType::Unknown);
}

#[test]
fn free_space_is_a_whole_percentage() {
    assert_eq!(percent_free(50, 1000), 5);
    assert_eq!(percent_free(199, 1000), 19);
    assert_eq!(percent_free(0, 1), 0);
    assert_eq!(percent_free(1000, 1000), 100);
    assert_eq!(percent_free(u64::MAX, u64::MAX), 100);
    assert_eq!(percent_free(u64::MAX, 1), u64::MAX as u128 * 100);
    assert_eq!(space_severity(9), Some(IssueSeverity::Critical));
    assert_eq!(space_severity(10), Some(IssueSeverity::Warning));
    assert_eq!(space_severity(19), Some(IssueSeverity::Warning));
    assert_eq!(space_severity(20), None);
    assert_eq!(fragmentation_severity(15), None);
    assert_eq!(fragmentation_severity(16), Some(IssueSeverity::Warning));
    assert_eq!(fragmentation_severity(30), Some(IssueSeverity::Warning));
    assert_eq!(fragmentation_severity(31), Some(IssueSeverity::Critical));
}

fn drive(name: &str, total: u64, free: u64, kind: DriveType, fs: Option<&str>) -> DriveInfo {
    DriveInfo {
        name: name.to_string(),
        total_bytes: total,
        free_bytes: free,
        drive_type: kind,
        file_system: fs.map(|s| s.to_string()),
    }
}

#[test]
fn storage_looks_at_fixed_volumes() {
    let checker = StorageChecker::new();
    assert!(checker.inspects(&drive("C:", 100, 10, DriveType::Fixed, None)));
    assert!(checker.inspects(&drive("C:", 100, 10, DriveType::Unknown, None)));
    assert!(!checker.inspects(&drive("E:", 100, 10, DriveType::Removable, None)));
    assert!(!checker.inspects(&drive("D:", 100, 10, DriveType::CDRom, None)));
    assert!(!checker.inspects(&drive("C:", 0, 0, DriveType::Fixed, None)));
    assert_eq!(
        checker.low_space(&drive("C:", 1000, 99, DriveType::Fixed, None)),
        Some(IssueSeverity::Critical)
    );
    assert_eq!(
        checker.low_space(&drive("C:", 1000, 100, DriveType::Fixed, None)),
        Some(IssueSeverity::Warning)
    );
    assert_eq!(checker.low_space(&drive("C:", 1000, 200, DriveType::Fixed, None)), None);
    assert_eq!(checker.low_space_id("C:"), "storage_low_space_C_");
    assert_eq!(checker.low_space_id("/mnt/data"), "storage_low_space__mnt_data");
}

#[test]
fn storage_reports_wasteful_file_systems() {
    let checker = StorageChecker::new();
    let big = drive("E:", 32_000_000_001, 1, DriveType::Fixed, Some("FAT32"));
    assert!(checker.wasteful_file_system(&big));
    let issue = checker.file_system_issue(&big).unwrap();
    assert_eq!(issue.id, "storage_fat32_E_");
    assert_eq!(issue.severity, IssueSeverity::Info);
    assert_eq!(issue.title, "Inefficient File System: E:");
    assert_eq!(
        issue.description,
        "E: uses FAT32, which is inefficient for large drives. Consider converting to NTFS or exFAT."
    );
    let edge = drive("E:", 32_000_000_000, 1, DriveType::Fixed, Some("fat32"));
    assert!(!checker.wasteful_file_system(&edge));
    assert!(checker.file_system_issue(&edge).is_none());
    let other = drive("C:", 64_000_000_000, 1, DriveType::Fixed, Some("NTFS"));
    assert!(checker.file_system_issue(&other).is_none());
    let unnamed = drive("C:", 64_000_000_000, 1, DriveType::Fixed, None);
    assert!(checker.file_system_issue(&unnamed).is_none());
}

#[test]
fn storage_reports_fragmentation() {
    let checker = StorageChecker::new();
    assert!(checker.fragmentation_issue("C:", 15).is_none());
    let issue = checker.fragmentation_issue("C:", 31).unwrap();
    assert_eq!(issue.id, "storage_fragmentation_C_");
    assert_eq!(issue.severity, IssueSeverity::Critical);
    assert_eq!(issue.title, "High Disk Fragmentation: C:");
    assert_eq!(
        issue.description,
        "C: is 31% fragmented. This slows down file access. Run defragmentation."
    );
    assert_eq!(checker.fragmentation_issue("C:", 16).unwrap().severity, IssueSeverity::Warning);
    assert_eq!(
        checker.parse_fragmentation_line(&chars("  Total fragmented space  = 12%")),
        Some(12)
    );
    assert_eq!(
        checker.parse_fragmentation_line(&chars("fragmented: about% then 7% and 9%")),
        Some(7)
    );
    assert_eq!(checker.parse_fragmentation_line(&chars("free space = 12%")), None);
    assert_eq!(checker.parse_fragmentation_line(&chars("fragmented 12")), None);
    assert_eq!(checker.parse_fragmentation_line(&chars("fragmented 4294967296%")), None);
}

#[test]
fn storage_listings_are_read() {
    let checker = StorageChecker::new();
    let drives = checker.volumes_from_listing(
        "Filesystem 1B-blocks Used Available Use% Mounted on\n/dev/sda1 1000 950 50 95% /\ntmpfs x 0 1 0% /run\n/dev/sdb1 2000 0 2000 0% /data\n",
    );
    assert_eq!(drives.len(), 2);
    assert_eq!(drives[0].name, "/");
    assert_eq!(drives[0].total_bytes, 1000);
    assert_eq!(drives[0].free_bytes, 50);
    assert_eq!(drives[0].drive_type, DriveType::Fixed);
    assert_eq!(drives[0].file_system, Some("/dev/sda1".to_string()));
    assert_eq!(drives[1].name, "/data");
    let listed = checker.parse_listed_volume(&chars("PC,C:, 3 , 50 ,NTFS, 1000 ,System")).unwrap();
    assert_eq!(listed.name, "C:");
    assert_eq!(listed.drive_type, DriveType::Fixed);
    assert_eq!(listed.free_bytes, 50);
    assert_eq!(listed.total_bytes, 1000);
    assert_eq!(listed.file_system, Some("NTFS".to_string()));
    assert!(checker.parse_listed_volume(&chars("PC,C:,3,50,NTFS,0,System")).is_none());
    assert!(checker.parse_listed_volume(&chars("PC,D:,5,,,,")).is_none());
    assert!(checker.parse_listed_volume(&chars("PC,C:,3,50,NTFS")).is_none());
}

#[test]
fn storage_fixes_are_planned() {
    let checker = StorageChecker::new();
    assert_eq!(checker.fix_plan("storage_low_space_C_").unwrap(), StoragePlan::Cleanup);
    assert_eq!(checker.fix_plan("storage_temp_cleanup").unwrap(), StoragePlan::Cleanup);
    assert_eq!(
        checker.fix_plan("storage_fragmentation_C").unwrap(),
        StoragePlan::Defragment { letter: 'C' }
    );
    for bad in ["storage_fragmentation_c", "storage_fragmentation_C_", "storage_fragmentation_"] {
        match checker.fix_plan(bad) {
            Err(FixError::Failed(reason)) => {
                assert_eq!(reason, format!("Invalid drive letter: {}", &bad[22..]))
            }
            _ => panic!("a bad drive letter must fail"),
        }
    }
    assert!(matches!(checker.fix_plan("storage_fat32_C_"), Err(FixError::NotApplicable)));
    assert!(matches!(checker.fix_plan("enable_firewall"), Err(FixError::NotApplicable)));
}

#[test]
fn bottlenecks_are_judged() {
    let analyzer = BottleneckAnalyzer::new();
    assert_eq!(analyzer.ram_finding(4 * GIGABYTE, GIGABYTE), RamFinding::Low);
    assert_eq!(analyzer.ram_finding(8 * GIGABYTE - 1, 0), RamFinding::Low);
    assert_eq!(analyzer.ram_finding(8 * GIGABYTE, 0), RamFinding::Fine);
    assert_eq!(analyzer.ram_finding(10 * GIGABYTE, 9 * GIGABYTE), RamFinding::Fine);
    assert_eq!(analyzer.ram_finding(16 * GIGABYTE, 15 * GIGABYTE), RamFinding::Exhausted);
    assert!(analyzer.is_mechanical_drive("WDC WD10EZEX", 1000 * GIGABYTE));
    assert!(!analyzer.is_mechanical_drive("Samsung SSD 970", 1000 * GIGABYTE));
    assert!(!analyzer.is_mechanical_drive("NVMe drive", 1000 * GIGABYTE));
    assert!(!analyzer.is_mechanical_drive("WDC", 500 * GIGABYTE));
    assert!(analyzer.is_mechanical_drive("WDC", 501 * GIGABYTE));
    assert!(analyzer.is_entry_level_cpu("Intel Celeron N4000", 8));
    assert!(analyzer.is_entry_level_cpu("Intel Pentium Gold", 4));
    assert!(analyzer.is_entry_level_cpu("Intel Atom", 4));
    assert!(analyzer.is_entry_level_cpu("AMD Ryzen 9", 3));
    assert!(!analyzer.is_entry_level_cpu("AMD Ryzen 9", 4));
    assert!(analyzer.software_can_help(8 * GIGABYTE, 4));
    assert!(!analyzer.software_can_help(8 * GIGABYTE - 1, 4));
    assert!(!analyzer.software_can_help(8 * GIGABYTE, 3));
    let clear = analyzer.all_clear_issue();
    assert_eq!(clear.id, "bottleneck_none");
    assert_eq!(clear.severity, IssueSeverity::Info);
    assert_eq!(clear.title, "No Major Hardware Bottlenecks Detected");
    assert!(clear.fix.is_none());
}

#[test]
fn bottleneck_guides_are_shown() {
    let analyzer = BottleneckAnalyzer::new();
    let ssd = analyzer.fix("show_ssd_guide").unwrap();
    assert!(ssd.success);
    assert!(ssd.message.starts_with("SSD Upgrade Guide:\n\n1. Check your PC model"));
    assert!(!ssd.rollback_available);
    assert!(ssd.restore_point_id.is_none());
    let ram = analyzer.fix("show_ram_guide").unwrap();
    assert!(ram.message.starts_with("RAM Upgrade Guide:"));
    let hogs = analyzer.fix("analyze_ram_hogs").unwrap();
    assert!(hogs.message.starts_with("Check the 'Process Monitor' issues above"));
    assert!(matches!(analyzer.fix("show_cpu_guide"), Err(FixError::NotApplicable)));
    assert!(matches!(analyzer.fix(""), Err(FixError::NotApplicable)));
}
