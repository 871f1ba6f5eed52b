use health_speed_checker::engine::{conclude_fix, no_handler, order_by_severity, should_run};
use health_speed_checker::{
    CheckCategory, Checker, FixAction, FixError, FixResult, ImpactCategory, Issue, IssueSeverity,
    ScanContext, ScanOptions, ScannerEngine,
};
use std::sync::atomic::{AtomicUsize, Ordering};
use std::sync::Arc;

struct Fixed {
    name: &'static str,
    category: CheckCategory,
    severities: Vec<IssueSeverity>,
    impact: ImpactCategory,
    owned_action: &'static str,
    fails: bool,
    runs: Arc<AtomicUsize>,
    fixes: Arc<AtomicUsize>,
}

impl Fixed {
    fn new(name: &'static str, category: CheckCategory, severities: Vec<IssueSeverity>) -> Fixed {
        Fixed {
            name,
            category,
            severities,
            impact: ImpactCategory::Privacy,
            owned_action: "",
            fails: false,
            runs: Arc::new(AtomicUsize::new(0)),
            fixes: Arc::new(AtomicUsize::new(0)),
        }
    }
}

fn issue(id: &str, severity: IssueSeverity, impact_category: ImpactCategory) -> Issue {
    Issue {
        id: id.to_string(),
        severity,
        title: format!("title of {}", id),
        description: format!("description of {}", id),
        impact_category,
        fix: None,
    }
}

impl Checker for Fixed {
    fn name(&self) -> &'static str {
        self.name
    }

    fn category(&self) -> CheckCategory {
        self.category
    }

    fn run(&self, context: &ScanContext) -> Vec<Issue> {
        self.runs.fetch_add(1, Ordering::SeqCst);
        if context.options.quick {
            return Vec::new();
        }
        let mut out = Vec::new();
        for (n, severity) in self.severities.iter().enumerate() {
            out.push(issue(&format!("{}_{}", self.name, n), *severity, self.impact));
        }
        out
    }

    fn fix(&self, action_id: &str, _params: &serde_json::Value) -> Result<FixResult, FixError> {
        self.fixes.fetch_add(1, Ordering::SeqCst);
        if action_id != self.owned_action {
            return Err(FixError::NotApplicable);
        }
        if self.fails {
            Err(FixError::Failed(format!("{} could not fix", self.name)))
        } else {
            Ok(FixResult {
                success: true,
                message: format!("fixed by {}", self.name),
                rollback_available: true,
                restore_point_id: Some("rp".to_string()),
            })
        }
    }
}

struct Silent;

impl Checker for Silent {
    fn name(&self) -> &'static str {
        "silent"
    }

    fn category(&self) -> CheckCategory {
        CheckCategory::Firmware
    }

    fn run(&self, _context: &ScanContext) -> Vec<Issue> {
        Vec::new()
    }

    fn fix(&self, _action_id: &str, _params: &serde_json::Value) -> Result<FixResult, FixError> {
        Err(FixError::NotApplicable)
    }
}

fn empty_params() -> serde_json::Value {
    serde_json::Value::Object(serde_json::Map::new())
}

fn ids(issues: &[Issue]) -> Vec<&str> {
    issues.iter().map(|i| i.id.as_str()).collect()
}

#[test]
fn fix_issue_without_handler_reports_not_found() {
    let engine = ScannerEngine::new();
    let result = engine.fix_issue("nonexistent_action", &empty_params());
    assert!(!result.success);
    assert_eq!(result.message, "No handler found for action: nonexistent_action");
    assert!(!result.rollback_available);
    assert!(result.restore_point_id.is_none());
}

#[test]
fn fix_issue_that_every_checker_declines_reports_not_found() {
    let mut engine = ScannerEngine::new();
    let mut a = Fixed::new("a", CheckCategory::Security, vec![]);
    a.owned_action = "fix_a";
    let asked_a = a.fixes.clone();
    engine.register(Box::new(a));
    engine.register(Box::new(Silent));
    let result = engine.fix_issue("nonexistent_action", &empty_params());
    assert!(!result.success);
    assert_eq!(result.message, "No handler found for action: nonexistent_action");
    assert_eq!(asked_a.load(Ordering::SeqCst), 1);
    let empty = engine.fix_issue("", &empty_params());
    assert_eq!(empty.message, "No handler found for action: ");
}

#[test]
fn fix_issue_hands_on_what_the_owner_reports() {
    let mut engine = ScannerEngine::new();
    engine.register(Box::new(Silent));
    let mut a = Fixed::new("a", CheckCategory::Security, vec![]);
    a.owned_action = "fix_a";
    engine.register(Box::new(a));
    let result = engine.fix_issue("fix_a", &empty_params());
    assert!(result.success);
    assert_eq!(result.message, "fixed by a");
    assert!(result.rollback_available);
    assert_eq!(result.restore_point_id.as_deref(), Some("rp"));
}

#[test]
fn fix_issue_surfaces_the_failure_of_the_owner() {
    let mut engine = ScannerEngine::new();
    let mut first = Fixed::new("first", CheckCategory::Security, vec![]);
    first.owned_action = "shared";
    first.fails = true;
    let mut second = Fixed::new("second", CheckCategory::Security, vec![]);
    second.owned_action = "shared";
    let asked_second = second.fixes.clone();
    engine.register(Box::new(first));
    engine.register(Box::new(second));
    let result = engine.fix_issue("shared", &empty_params());
    assert!(!result.success);
    assert_eq!(result.message, "first could not fix");
    assert!(!result.rollback_available);
    assert!(result.restore_point_id.is_none());
    assert_eq!(asked_second.load(Ordering::SeqCst), 0);
}

#[test]
fn scan_orders_by_severity_and_keeps_order_within() {
    let mut engine = ScannerEngine::new();
    engine.register(Box::new(Fixed::new(
        "a",
        CheckCategory::Privacy,
        vec![IssueSeverity::Info, IssueSeverity::Critical, IssueSeverity::Warning],
    )));
    engine.register(Box::new(Fixed::new(
        "b",
        CheckCategory::Security,
        vec![IssueSeverity::Warning, IssueSeverity::Info, IssueSeverity::Critical],
    )));
    assert_eq!(engine.checker_count(), 2);
    let result = engine.scan(ScanOptions::default());
    assert_eq!(ids(&result.issues), vec!["a_1", "b_2", "a_2", "b_0", "a_0", "b_1"]);
    let ranks: Vec<u8> = result.issues.iter().map(|i| i.severity.rank()).collect();
    assert_eq!(ranks, vec![0, 0, 1, 1, 2, 2]);
    assert_eq!(result.scan_id.len(), 36);
    assert_eq!(result.scores.health, 100);
    assert_eq!(result.scores.speed, 100);
}

#[test]
fn scan_without_performance_runs_no_performance_checker() {
    let mut engine = ScannerEngine::new();
    let perf = Fixed::new("perf", CheckCategory::Performance, vec![IssueSeverity::Critical]);
    let perf_runs = perf.runs.clone();
    let sec = Fixed::new("sec", CheckCategory::Security, vec![IssueSeverity::Info]);
    let sec_runs = sec.runs.clone();
    let other = Fixed::new("other", CheckCategory::Compliance, vec![IssueSeverity::Warning]);
    let other_runs = other.runs.clone();
    engine.register(Box::new(perf));
    engine.register(Box::new(sec));
    engine.register(Box::new(other));
    let options = ScanOptions { performance: false, ..ScanOptions::default() };
    let result = engine.scan(options);
    assert_eq!(ids(&result.issues), vec!["other_0", "sec_0"]);
    assert_eq!(perf_runs.load(Ordering::SeqCst), 0);
    assert_eq!(sec_runs.load(Ordering::SeqCst), 1);
    assert_eq!(other_runs.load(Ordering::SeqCst), 1);

    let none = ScanOptions { security: false, performance: false, ..ScanOptions::default() };
    let result = engine.scan(none);
    assert_eq!(ids(&result.issues), vec!["other_0"]);
    assert_eq!(perf_runs.load(Ordering::SeqCst), 0);
    assert_eq!(sec_runs.load(Ordering::SeqCst), 1);

    let all = engine.scan(ScanOptions::default());
    assert_eq!(ids(&all.issues), vec!["perf_0", "other_0", "sec_0"]);
}

#[test]
fn scan_passes_the_advisory_flags_to_the_checkers() {
    let mut engine = ScannerEngine::new();
    engine.register(Box::new(Fixed::new(
        "a",
        CheckCategory::Threat,
        vec![IssueSeverity::Critical],
    )));
    let quick = ScanOptions { quick: true, ..ScanOptions::default() };
    assert!(engine.scan(quick).issues.is_empty());
    assert_eq!(engine.scan(ScanOptions::default()).issues.len(), 1);
}

#[test]
fn scan_scores_what_it_found() {
    let mut engine = ScannerEngine::new();
    let mut sec = Fixed::new("firewall", CheckCategory::Security, vec![IssueSeverity::Critical]);
    sec.impact = ImpactCategory::Security;
    let mut perf = Fixed::new("perf", CheckCategory::Performance, vec![IssueSeverity::Warning]);
    perf.impact = ImpactCategory::Performance;
    engine.register(Box::new(perf));
    engine.register(Box::new(sec));
    let result = engine.scan(ScanOptions::default());
    assert_eq!(ids(&result.issues), vec!["firewall_0", "perf_0"]);
    assert_eq!(result.scores.health, 80);
    assert_eq!(result.scores.speed, 88);
    assert!(result.scores.health_delta.is_none());
    assert!(result.scores.speed_delta.is_none());
    assert!(result.timestamp > 1_600_000_000);
    assert!(result.duration_ms < 10_000);
    assert!(result.details.security.firewall_status.is_active);
    assert_eq!(result.details.security.firewall_status.provider, "Unknown");
    assert_eq!(result.details.security.os_update_status.current_build, "Unknown");
    assert_eq!(result.details.performance.system_metrics.memory_total_mb, 16 * 1024);
    assert_eq!(result.details.performance.system_metrics.disk_total_mb, 256 * 1024);
    assert!(result.details.performance.top_processes.is_empty());
}

#[test]
fn scan_of_an_empty_engine_finds_nothing() {
    let engine = ScannerEngine::new();
    assert_eq!(engine.checker_count(), 0);
    let result = engine.scan(ScanOptions::default());
    assert!(result.issues.is_empty());
    assert_eq!((result.scores.health, result.scores.speed), (100, 100));
}

#[test]
fn every_scan_has_its_own_identifier() {
    let engine = ScannerEngine::new();
    let first = engine.scan(ScanOptions::default());
    let second = engine.scan(ScanOptions::default());
    assert_ne!(first.scan_id, second.scan_id);
    assert_eq!(first.scan_id.len(), 36);
    assert_eq!(first.scan_id.matches('-').count(), 4);
}

#[test]
fn should_run_goes_by_category() {
    let only_security = ScanOptions { performance: false, ..ScanOptions::default() };
    let only_performance = ScanOptions { security: false, ..ScanOptions::default() };
    assert!(should_run(CheckCategory::Security, &only_security));
    assert!(!should_run(CheckCategory::Performance, &only_security));
    assert!(!should_run(CheckCategory::Security, &only_performance));
    assert!(should_run(CheckCategory::Performance, &only_performance));
    for category in [
        CheckCategory::Privacy,
        CheckCategory::Firmware,
        CheckCategory::Threat,
        CheckCategory::Compliance,
    ] {
        let nothing = ScanOptions { security: false, performance: false, ..ScanOptions::default() };
        assert!(should_run(category, &nothing));
    }
}

#[test]
fn order_by_severity_is_stable() {
    let input = vec![
        issue("i1", IssueSeverity::Info, ImpactCategory::Privacy),
        issue("w1", IssueSeverity::Warning, ImpactCategory::Privacy),
        issue("c1", IssueSeverity::Critical, ImpactCategory::Privacy),
        issue("i2", IssueSeverity::Info, ImpactCategory::Privacy),
        issue("c2", IssueSeverity::Critical, ImpactCategory::Privacy),
        issue("w2", IssueSeverity::Warning, ImpactCategory::Privacy),
        issue("c3", IssueSeverity::Critical, ImpactCategory::Privacy),
    ];
    let ordered = order_by_severity(input);
    assert_eq!(ids(&ordered), vec!["c1", "c2", "c3", "w1", "w2", "i1", "i2"]);
    assert!(order_by_severity(Vec::new()).is_empty());
}

#[test]
fn conclude_fix_tells_the_three_answers_apart() {
    assert!(conclude_fix(Err(FixError::NotApplicable)).is_none());
    let failed = conclude_fix(Err(FixError::Failed("disk is read-only".to_string()))).unwrap();
    assert!(!failed.success);
    assert_eq!(failed.message, "disk is read-only");
    let reported = conclude_fix(Ok(FixResult::failure("reported failure"))).unwrap();
    assert!(!reported.success);
    assert_eq!(reported.message, "reported failure");
    let done = conclude_fix(Ok(FixResult::success("done"))).unwrap();
    assert!(done.success);
    assert_eq!(no_handler("x").message, "No handler found for action: x");
}

#[test]
fn assemble_result_keeps_what_it_is_given() {
    let engine = ScannerEngine::new();
    let found = vec![
        issue("b", IssueSeverity::Info, ImpactCategory::Security),
        issue("a", IssueSeverity::Critical, ImpactCategory::Security),
    ];
    let result = engine.assemble_result("id-1".to_string(), 1_700_000_000, 42, found);
    assert_eq!(result.scan_id, "id-1");
    assert_eq!(result.timestamp, 1_700_000_000);
    assert_eq!(result.duration_ms, 42);
    assert_eq!(ids(&result.issues), vec!["a", "b"]);
    assert_eq!(result.scores.health, 78);
    let early = engine.assemble_result("id-2".to_string(), -5, 0, Vec::new());
    assert_eq!(early.timestamp, 0);
}

#[test]
fn issue_knows_whether_its_fix_may_run_unasked() {
    let mut with_fix = issue("a", IssueSeverity::Info, ImpactCategory::Security);
    assert!(!with_fix.auto_fixable());
    with_fix.fix = Some(FixAction {
        action_id: "x".to_string(),
        label: "X".to_string(),
        is_auto_fix: false,
        params: empty_params(),
    });
    assert!(!with_fix.auto_fixable());
    with_fix.fix.as_mut().unwrap().is_auto_fix = true;
    assert!(with_fix.auto_fixable());
    let plain = Issue::plain("p", IssueSeverity::Warning, "T", "D", ImpactCategory::Both);
    assert_eq!(plain.id, "p");
    assert_eq!(plain.title, "T");
    assert_eq!(plain.description, "D");
    assert!(plain.fix.is_none());
}

#[test]
fn engine_keeps_the_categories_of_its_checkers() {
    let mut engine = ScannerEngine::new();
    assert!(engine.checker_categories().is_empty());
    engine.register(Box::new(Fixed::new("p", CheckCategory::Performance, vec![])));
    engine.register(Box::new(Fixed::new("s", CheckCategory::Security, vec![])));
    engine.register(Box::new(Fixed::new("t", CheckCategory::Threat, vec![])));
    assert_eq!(
        engine.checker_categories(),
        vec![CheckCategory::Performance, CheckCategory::Security, CheckCategory::Threat]
    );
    assert_eq!(engine.checker_count(), 3);
}

#[test]
fn scan_of_excluded_checkers_alone_finds_nothing() {
    let mut engine = ScannerEngine::new();
    engine.register(Box::new(Fixed::new(
        "p",
        CheckCategory::Performance,
        vec![IssueSeverity::Critical, IssueSeverity::Info],
    )));
    engine.register(Box::new(Fixed::new("q", CheckCategory::Performance, vec![IssueSeverity::Warning])));
    let options = ScanOptions { performance: false, ..ScanOptions::default() };
    let result = engine.scan(options);
    assert!(result.issues.is_empty());
    assert_eq!((result.scores.health, result.scores.speed), (100, 100));
}
