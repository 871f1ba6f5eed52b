//! The issue taxonomy and the data that a scan produces.

use vstd::prelude::*;

verus! {

/// `serde_json::Value`, the parameter map of a fix action. The library hands
/// it on and never looks inside.
#[verifier::external_type_specification]
#[verifier::external_body]
pub struct ExJsonValue(serde_json::Value);

/// `serde_json::Value::clone` gives back an equal value. The derived `Clone`
/// of a fix action calls it.
pub assume_specification[ <serde_json::Value as Clone>::clone ](v: &serde_json::Value) -> (r:
    serde_json::Value)
    ensures
        r == *v,
;

/// Which checks a scan performs. The last three flags are advisory: a checker
/// reads them itself and reports nothing when it is excluded.
#[derive(Debug, Clone, Copy, PartialEq, Eq, Structural)]
pub struct ScanOptions {
    /// Run the checkers of the security category.
    pub security: bool,
    /// Run the checkers of the performance category.
    pub performance: bool,
    /// Skip slow probes.
    pub quick: bool,
    /// Skip application-level checks.
    pub exclude_apps: bool,
    /// Skip the analysis of startup programs.
    pub exclude_startup: bool,
}

impl ScanOptions {
    /// A full scan of every category.
    pub open spec fn full() -> ScanOptions {
        ScanOptions {
            security: true,
            performance: true,
            quick: false,
            exclude_apps: false,
            exclude_startup: false,
        }
    }
}

impl Default for ScanOptions {
    fn default() -> (o: Self)
        ensures
            o == ScanOptions::full(),
    {
        ScanOptions {
            security: true,
            performance: true,
            quick: false,
            exclude_apps: false,
            exclude_startup: false,
        }
    }
}

/// How urgent a finding is.
#[derive(Debug, Clone, Copy, PartialEq, Eq, Structural)]
pub enum IssueSeverity {
    /// Needs attention at once.
    Critical,
    /// Should be addressed soon.
    Warning,
    /// Informational.
    Info,
}

impl IssueSeverity {
    /// Place of the severity in scan output: lower ranks come first.
    pub open spec fn rank_spec(self) -> nat {
        match self {
            IssueSeverity::Critical => 0,
            IssueSeverity::Warning => 1,
            IssueSeverity::Info => 2,
        }
    }

    /// Place of the severity in scan output: lower ranks come first.
    pub fn rank(&self) -> (r: u8)
        ensures
            r as nat == self.rank_spec(),
    {
        match self {
            IssueSeverity::Critical => 0,
            IssueSeverity::Warning => 1,
            IssueSeverity::Info => 2,
        }
    }
}

/// What a finding affects.
#[derive(Debug, Clone, Copy, PartialEq, Eq, Structural)]
pub enum ImpactCategory {
    Security,
    Performance,
    Privacy,
    /// Both security and performance.
    Both,
}

/// A remediation that the checker which reported the issue can carry out.
#[derive(Debug, Clone)]
pub struct FixAction {
    /// Names the remediation to the checker that owns it.
    pub action_id: String,
    /// Text shown to the user.
    pub label: String,
    /// The action may run without asking the user first.
    pub is_auto_fix: bool,
    /// Parameters for the owning checker.
    pub params: serde_json::Value,
}

/// One detected problem.
#[derive(Debug, Clone)]
pub struct Issue {
    /// Stable per kind of issue; not unique across scans.
    pub id: String,
    pub severity: IssueSeverity,
    pub title: String,
    pub description: String,
    pub impact_category: ImpactCategory,
    pub fix: Option<FixAction>,
}

impl Issue {
    /// The issue has these texts and classes and carries no fix.
    pub open spec fn is_plain(
        &self,
        id: Seq<char>,
        severity: IssueSeverity,
        title: Seq<char>,
        description: Seq<char>,
        impact_category: ImpactCategory,
    ) -> bool {
        &&& self.id@ == id
        &&& self.severity == severity
        &&& self.title@ == title
        &&& self.description@ == description
        &&& self.impact_category == impact_category
        &&& self.fix is None
    }

    /// An issue without a fix.
    pub fn plain(
        id: &str,
        severity: IssueSeverity,
        title: &str,
        description: &str,
        impact_category: ImpactCategory,
    ) -> (issue: Self)
        ensures
            issue.is_plain(id@, severity, title@, description@, impact_category),
    {
        Issue {
            id: id.to_owned(),
            severity,
            title: title.to_owned(),
            description: description.to_owned(),
            impact_category,
            fix: None,
        }
    }

    /// The issue carries a fix that may run without confirmation.
    pub open spec fn auto_fixable_spec(&self) -> bool {
        self.fix matches Some(action) && action.is_auto_fix
    }

    /// Whether the issue carries a fix that may run without confirmation.
    pub fn auto_fixable(&self) -> (r: bool)
        ensures
            r == self.auto_fixable_spec(),
    {
        match &self.fix {
            Some(action) => action.is_auto_fix,
            None => false,
        }
    }
}

/// Composite scores of a scan, each from 0 to 100.
#[derive(Debug, Clone, Copy, PartialEq, Eq, Structural)]
pub struct SystemScores {
    pub health: u8,
    pub speed: u8,
    /// Change of `health` against an earlier scan; filled in by the caller.
    pub health_delta: Option<i8>,
    /// Change of `speed` against an earlier scan; filled in by the caller.
    pub speed_delta: Option<i8>,
}

impl SystemScores {
    /// Both scores lie in the range from 0 to 100.
    pub open spec fn in_range(&self) -> bool {
        self.health <= 100 && self.speed <= 100
    }
}

#[derive(Debug, Clone)]
pub struct OsUpdateStatus {
    pub is_current: bool,
    pub current_build: String,
    pub latest_build: Option<String>,
    pub pending_updates: u32,
}

#[derive(Debug, Clone)]
pub struct FirewallStatus {
    pub is_active: bool,
    pub provider: String,
}

#[derive(Debug, Clone)]
pub struct PortInfo {
    pub port: u16,
    pub protocol: String,
    pub service: Option<String>,
    pub process: Option<String>,
}

#[derive(Debug, Clone)]
pub struct VulnerableApp {
    pub name: String,
    pub version: String,
    pub cve_id: String,
    pub severity: String,
}

/// Load figures of the machine, in whole units.
#[derive(Debug, Clone, Copy, PartialEq, Eq, Structural)]
pub struct SystemMetrics {
    /// Processor load in hundredths of a percent.
    pub cpu_usage_centipercent: u32,
    pub memory_used_mb: u64,
    pub memory_total_mb: u64,
    pub disk_used_mb: u64,
    pub disk_total_mb: u64,
}

/// One running process, in whole units.
#[derive(Debug, Clone)]
pub struct ProcessInfo {
    pub pid: u32,
    pub name: String,
    /// Processor share in hundredths of a percent.
    pub cpu_centipercent: u32,
    pub memory_mb: u64,
}

#[derive(Debug, Clone)]
pub struct StartupItem {
    pub name: String,
    pub path: String,
    pub estimated_delay_ms: u32,
    pub can_disable: bool,
}

#[derive(Debug, Clone)]
pub struct SecurityDetails {
    pub os_update_status: OsUpdateStatus,
    pub firewall_status: FirewallStatus,
    pub open_ports: Vec<PortInfo>,
    pub vulnerable_apps: Vec<VulnerableApp>,
}

#[derive(Debug, Clone)]
pub struct PerformanceDetails {
    pub system_metrics: SystemMetrics,
    pub top_processes: Vec<ProcessInfo>,
    pub startup_items: Vec<StartupItem>,
}

/// Supplementary data of a scan.
#[derive(Debug, Clone)]
pub struct ScanDetails {
    pub security: SecurityDetails,
    pub performance: PerformanceDetails,
}

impl ScanDetails {
    /// The details of a scan that gathered none: everything in order, nothing
    /// listed, and the nominal machine sizes.
    pub open spec fn is_unknown(&self) -> bool {
        &&& self.security.os_update_status.is_current
        &&& self.security.os_update_status.current_build@ == "Unknown"@
        &&& self.security.os_update_status.latest_build is None
        &&& self.security.os_update_status.pending_updates == 0
        &&& self.security.firewall_status.is_active
        &&& self.security.firewall_status.provider@ == "Unknown"@
        &&& self.security.open_ports@.len() == 0
        &&& self.security.vulnerable_apps@.len() == 0
        &&& self.performance.system_metrics == (SystemMetrics {
            cpu_usage_centipercent: 0,
            memory_used_mb: 0,
            memory_total_mb: 16384,
            disk_used_mb: 0,
            disk_total_mb: 262144,
        })
        &&& self.performance.top_processes@.len() == 0
        &&& self.performance.startup_items@.len() == 0
    }

    /// Details for a scan that gathered none.
    pub fn unknown() -> (d: Self)
        ensures
            d.is_unknown(),
    {
        ScanDetails {
            security: SecurityDetails {
                os_update_status: OsUpdateStatus {
                    is_current: true,
                    current_build: "Unknown".to_owned(),
                    latest_build: None,
                    pending_updates: 0,
                },
                firewall_status: FirewallStatus { is_active: true, provider: "Unknown".to_owned() },
                open_ports: Vec::new(),
                vulnerable_apps: Vec::new(),
            },
            performance: PerformanceDetails {
                system_metrics: SystemMetrics {
                    cpu_usage_centipercent: 0,
                    memory_used_mb: 0,
                    memory_total_mb: 16384,
                    disk_used_mb: 0,
                    disk_total_mb: 262144,
                },
                top_processes: Vec::new(),
                startup_items: Vec::new(),
            },
        }
    }
}

/// Everything one scan produced.
#[derive(Debug, Clone)]
pub struct ScanResult {
    /// Unique to this scan.
    pub scan_id: String,
    /// Seconds since the Unix epoch at the start of the scan.
    pub timestamp: u64,
    pub duration_ms: u64,
    pub scores: SystemScores,
    /// Ordered by severity; issues of one severity stay in the order found.
    pub issues: Vec<Issue>,
    pub details: ScanDetails,
}

/// Progress of a running scan, for a front end to display.
#[derive(Debug, Clone)]
pub enum ProgressEvent {
    Started { scan_id: String },
    TaskChanged { message: String },
    ProgressUpdate { percent: u8 },
    IssueFound(Issue),
    Complete { scan_id: String, duration_ms: u64 },
    Error { message: String },
}

/// The mathematical content of a [`FixResult`].
pub struct FixResultView {
    pub success: bool,
    pub message: Seq<char>,
    pub rollback_available: bool,
    pub restore_point_id: Option<Seq<char>>,
}

/// What an attempted remediation came to.
#[derive(Debug, Clone)]
pub struct FixResult {
    pub success: bool,
    pub message: String,
    pub rollback_available: bool,
    pub restore_point_id: Option<String>,
}

impl View for FixResult {
    type V = FixResultView;

    open spec fn view(&self) -> FixResultView {
        FixResultView {
            success: self.success,
            message: self.message@,
            rollback_available: self.rollback_available,
            restore_point_id: match self.restore_point_id {
                Some(id) => Some(id@),
                None => None,
            },
        }
    }
}

impl FixResultView {
    /// A result with the given outcome and message and nothing to roll back.
    pub open spec fn plain(success: bool, message: Seq<char>) -> FixResultView {
        FixResultView { success, message, rollback_available: false, restore_point_id: None }
    }
}

impl FixResult {
    /// A successful result with nothing to roll back.
    pub fn success(message: &str) -> (r: Self)
        ensures
            r@ == FixResultView::plain(true, message@),
    {
        FixResult {
            success: true,
            message: message.to_owned(),
            rollback_available: false,
            restore_point_id: None,
        }
    }

    /// A failed result with nothing to roll back.
    pub fn failure(message: &str) -> (r: Self)
        ensures
            r@ == FixResultView::plain(false, message@),
    {
        FixResult {
            success: false,
            message: message.to_owned(),
            rollback_available: false,
            restore_point_id: None,
        }
    }
}

/// The aspect of the machine that a checker looks at.
#[derive(Debug, Clone, Copy, PartialEq, Eq, Structural)]
pub enum CheckCategory {
    Security,
    Performance,
    Privacy,
    Firmware,
    Threat,
    Compliance,
}

/// What a checker is told about the scan it runs in.
#[derive(Debug, Clone, Copy, PartialEq, Eq, Structural)]
pub struct ScanContext {
    pub options: ScanOptions,
}

} // verus!
