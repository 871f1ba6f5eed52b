use health_speed_checker::checkers::bloatware::{BloatwareDetector, StartupSource};
use health_speed_checker::checkers::firewall::FirewallChecker;
use health_speed_checker::checkers::network::NetworkChecker;
use health_speed_checker::checkers::os_update::OsUpdateChecker;
use health_speed_checker::checkers::ports::PortScanner;
use health_speed_checker::checkers::process::ProcessMonitor;
use health_speed_checker::checkers::smart_disk::SmartDiskChecker;
use health_speed_checker::checkers::startup::StartupAnalyzer;
use health_speed_checker::checkers::storage::StorageChecker;
use health_speed_checker::parse::lines;
use health_speed_checker::{
    CheckCategory, Checker, FixError, FixResult, Issue, ScanContext, ScanOptions, ScannerEngine,
};
use std::time::{Duration, Instant};

/// A probe that judges a fixed observation by the rules of a checker. It
/// takes a few milliseconds, as a system tool does.
struct Probe {
    name: &'static str,
    category: CheckCategory,
    observe: Box<dyn Fn(&ScanContext) -> Vec<Issue> + Send + Sync>,
}

impl Checker for Probe {
    fn name(&self) -> &'static str {
        self.name
    }

    fn category(&self) -> CheckCategory {
        self.category
    }

    fn run(&self, context: &ScanContext) -> Vec<Issue> {
        let started = Instant::now();
        while started.elapsed() < Duration::from_millis(2) {}
        (self.observe)(context)
    }

    fn fix(&self, _action_id: &str, _params: &serde_json::Value) -> Result<FixResult, FixError> {
        Err(FixError::NotApplicable)
    }
}

const STARTUP_LISTING: &str = "\nNode,Command,Name\nPC,McAfee Security,C:\\mcafee.exe\nPC,Editor,C:\\editor.exe\n";
const PROCESS_LISTING: &str = "\nNode,Name,PageFileUsage,ProcessId,WorkingSetSize\nPC,browser.exe,10,4242,4294967296\nPC,svchost.exe,10,8,4294967296\n";
const PORT_LISTING: &str = "  TCP    0.0.0.0:3389           0.0.0.0:0              LISTENING\n  TCP    0.0.0.0:8080           0.0.0.0:0              LISTENING\n";
const USAGE_LISTING: &str = "Filesystem Size Used Avail Use% Mounted on\n/dev/sda1 100G 97G 3G 97% /\n/dev/sdb1 100G 10G 90G 10% /data\n";
const VOLUME_LISTING: &str = "Filesystem 1B-blocks Used Available Use% Mounted on\n/dev/sda1 1000 950 50 95% /\n";

fn firewall() -> Box<dyn Checker> {
    let rules = FirewallChecker;
    Box::new(Probe {
        name: rules.name(),
        category: rules.category(),
        observe: Box::new(move |_| {
            let enabled = rules.reports_on("State                                 OFF");
            rules.issue_for(enabled, serde_json::Value::Null).into_iter().collect()
        }),
    })
}

fn startup() -> Box<dyn Checker> {
    let rules = StartupAnalyzer;
    Box::new(Probe {
        name: rules.name(),
        category: rules.category(),
        observe: Box::new(move |context| {
            let mut issues = Vec::new();
            if !rules.applies(context) {
                return issues;
            }
            let items = rules.items_from_listing(STARTUP_LISTING);
            issues.extend(rules.excess_issue(items.len(), serde_json::Value::Null));
            for item in &items {
                issues.extend(rules.bloatware_issue(item, serde_json::Value::Null));
            }
            issues
        }),
    })
}

fn processes() -> Box<dyn Checker> {
    let rules = ProcessMonitor;
    Box::new(Probe {
        name: rules.name(),
        category: rules.category(),
        observe: Box::new(move |_| {
            let mut issues = Vec::new();
            for line in lines(PROCESS_LISTING).iter().skip(2) {
                if let Some(process) = rules.parse_process_line(line) {
                    if rules.findings_for(&process).high_memory {
                        let id = rules.high_memory_id(&process.name);
                        issues.push(Issue::plain(
                            &id,
                            health_speed_checker::IssueSeverity::Info,
                            "A process uses much memory",
                            "This application is using a lot of memory.",
                            health_speed_checker::ImpactCategory::Performance,
                        ));
                    }
                }
            }
            issues
        }),
    })
}

fn updates() -> Box<dyn Checker> {
    let rules = OsUpdateChecker;
    Box::new(Probe {
        name: rules.name(),
        category: rules.category(),
        observe: Box::new(move |_| {
            let status = rules.status_from_listing(4, "10.0.19045".to_string());
            rules.issue_for(&status, serde_json::Value::Null).into_iter().collect()
        }),
    })
}

fn ports() -> Box<dyn Checker> {
    let rules = PortScanner;
    Box::new(Probe {
        name: rules.name(),
        category: rules.category(),
        observe: Box::new(move |context| {
            let mut issues = Vec::new();
            if !rules.applies(context) {
                return issues;
            }
            for port in rules.open_ports_from_listing(PORT_LISTING) {
                issues.extend(rules.issue_for(&port, serde_json::Value::Null));
            }
            issues
        }),
    })
}

fn bloatware() -> Box<dyn Checker> {
    let rules = BloatwareDetector::new();
    Box::new(Probe {
        name: rules.name(),
        category: rules.category(),
        observe: Box::new(move |_| {
            let table = BloatwareDetector::bloatware_patterns();
            match table.first_match("c:\\program files\\spotify\\spotify.exe") {
                Some(index) if index < table.len() => {
                    vec![rules.issue_from(StartupSource::RunList, &table.entry(index))]
                }
                _ => Vec::new(),
            }
        }),
    })
}

fn network() -> Box<dyn Checker> {
    let rules = NetworkChecker::new();
    Box::new(Probe {
        name: rules.name(),
        category: rules.category(),
        observe: Box::new(move |_| {
            let mut issues = Vec::new();
            let (latency, reachable) = rules.summarize_round(600, 3);
            issues.extend(rules.latency_issue(latency, reachable));
            let (dns, resolved) = rules.summarize_round(0, 0);
            issues.extend(rules.dns_issue(dns, resolved, false, serde_json::Value::Null));
            issues
        }),
    })
}

fn smart_disk() -> Box<dyn Checker> {
    let rules = SmartDiskChecker::new();
    Box::new(Probe {
        name: rules.name(),
        category: rules.category(),
        observe: Box::new(move |_| {
            let mut issues = Vec::new();
            for line in lines(USAGE_LISTING).iter().skip(1) {
                if let Some((percent, mount)) = rules.parse_usage_line(line) {
                    issues.extend(rules.usage_issue(&mount, percent, "Free up disk space soon."));
                }
            }
            issues
        }),
    })
}

fn storage() -> Box<dyn Checker> {
    let rules = StorageChecker::new();
    Box::new(Probe {
        name: rules.name(),
        category: rules.category(),
        observe: Box::new(move |_| {
            let mut issues = Vec::new();
            for drive in rules.volumes_from_listing(VOLUME_LISTING) {
                if rules.inspects(&drive) && drive.total_bytes > 0 {
                    if let Some(severity) = rules.low_space(&drive) {
                        issues.push(Issue::plain(
                            &rules.low_space_id(&drive.name),
                            severity,
                            "Low Disk Space",
                            "The volume is nearly full.",
                            health_speed_checker::ImpactCategory::Performance,
                        ));
                    }
                }
            }
            issues
        }),
    })
}

#[test]
fn test_full_scan() {
    let mut engine = ScannerEngine::new();

    engine.register(firewall());
    engine.register(startup());

    let options = ScanOptions {
        security: true,
        performance: true,
        quick: false,
        exclude_apps: false,
        exclude_startup: false,
    };

    let result = engine.scan(options);

    assert!(!result.scan_id.is_empty(), "Scan ID should not be empty");
    assert!(result.timestamp > 0, "Timestamp should be greater than 0");
    assert!(result.scores.health <= 100, "Health score should be <= 100");
    assert!(result.scores.speed <= 100, "Speed score should be <= 100");

    assert_eq!(result.scan_id.len(), 36, "Scan ID should be 36 characters (UUID format)");

    assert!(result.duration_ms > 0, "Duration should be greater than 0");
    assert!(result.duration_ms < 60000, "Full scan should complete within 60 seconds");

    let ids: Vec<&str> = result.issues.iter().map(|i| i.id.as_str()).collect();
    assert_eq!(ids, vec!["firewall_disabled", "bloatware_startup_mcafee_security"]);
}

#[test]
fn test_quick_scan() {
    let mut engine = ScannerEngine::new();
    engine.register(processes());
    engine.register(ports());

    let options = ScanOptions {
        security: false,
        performance: true,
        quick: true,
        exclude_apps: true,
        exclude_startup: true,
    };

    let result = engine.scan(options);

    assert!(result.duration_ms < 10000, "Quick scan should complete within 10 seconds");

    let port_issues: Vec<_> =
        result.issues.iter().filter(|i| i.id.starts_with("port_open_")).collect();
    assert_eq!(port_issues.len(), 0, "Port scanner should be skipped in quick mode");

    let ids: Vec<&str> = result.issues.iter().map(|i| i.id.as_str()).collect();
    assert_eq!(ids, vec!["high_memory_browser_exe"]);
}

#[test]
fn test_scan_with_all_checkers() {
    let mut engine = ScannerEngine::new();

    engine.register(firewall());
    engine.register(startup());
    engine.register(processes());
    engine.register(updates());
    engine.register(ports());

    engine.register(bloatware());
    engine.register(network());
    engine.register(smart_disk());
    engine.register(storage());

    let options = ScanOptions {
        security: true,
        performance: true,
        quick: true,
        exclude_apps: false,
        exclude_startup: false,
    };

    let result = engine.scan(options);

    assert!(!result.scan_id.is_empty());
    assert!(result.duration_ms > 0);

    for issue in &result.issues {
        assert!(!issue.id.is_empty(), "Issue ID must not be empty");
        assert!(!issue.title.is_empty(), "Issue title must not be empty");
        assert!(!issue.description.is_empty(), "Issue description must not be empty");
    }

    let ids: Vec<&str> = result.issues.iter().map(|i| i.id.as_str()).collect();
    assert_eq!(
        ids,
        vec![
            "firewall_disabled",
            "network_dns_failure",
            "disk_low_space__",
            "storage_low_space__",
            "windows_update_pending",
            "network_high_latency",
            "bloatware_startup_mcafee_security",
            "high_memory_browser_exe",
            "bloatware_spotify",
        ]
    );
}

#[test]
fn test_scan_context_options_respected() {
    let mut engine = ScannerEngine::new();
    engine.register(startup());

    let options = ScanOptions {
        security: false,
        performance: true,
        quick: false,
        exclude_apps: false,
        exclude_startup: true,
    };

    let result = engine.scan(options);

    let startup_issues: Vec<_> =
        result.issues.iter().filter(|i| i.id.starts_with("startup_")).collect();

    assert_eq!(
        startup_issues.len(),
        0,
        "Startup issues should be excluded when exclude_startup is true"
    );
    assert!(result.issues.is_empty());
}

#[test]
fn test_multiple_scans() {
    let mut engine = ScannerEngine::new();
    engine.register(processes());

    let options = ScanOptions {
        security: false,
        performance: true,
        quick: true,
        exclude_apps: true,
        exclude_startup: true,
    };

    let result1 = engine.scan(options.clone());
    let result2 = engine.scan(options.clone());

    assert_ne!(result1.scan_id, result2.scan_id, "Each scan should have unique ID");

    assert!(result1.timestamp > 0);
    assert!(result2.timestamp > 0);
}
