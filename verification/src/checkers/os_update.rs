//! Pending updates of the operating system.

use vstd::prelude::*;
use vstd::string::StringExecFns;
use crate::text::{decimal, decimal_string};
use crate::types::{
    CheckCategory, FixAction, ImpactCategory, Issue, IssueSeverity, OsUpdateStatus,
};

verus! {

/// Pending updates of the operating system.
#[derive(Debug, Clone, Copy)]
pub struct OsUpdateChecker;

/// Lines of heading in the list of updates.
pub const HEADER_LINES: usize = 2;

/// The number of pending updates that a non-empty list stands for.
pub const ASSUMED_PENDING: u32 = 3;

/// How severe pending updates are: critical above five, else a warning.
pub open spec fn pending_severity_spec(pending: u32) -> IssueSeverity {
    if pending > 5 {
        IssueSeverity::Critical
    } else {
        IssueSeverity::Warning
    }
}

/// `issue` is the issue about pending updates, with `params` as the
/// parameters of its fix.
pub open spec fn is_update_issue(pending: u32, params: serde_json::Value, issue: Issue) -> bool {
    &&& issue.id@ == "windows_update_pending"@
    &&& issue.severity == pending_severity_spec(pending)
    &&& issue.title@ == decimal(pending as nat) + " Windows updates available"@
    &&& issue.description@
        == "Keeping Windows updated is critical for security. Updates often include patches for vulnerabilities."@
    &&& issue.impact_category == ImpactCategory::Security
    &&& issue.fix matches Some(action)
    &&& action.action_id@ == "install_windows_updates"@
    &&& action.label@ == "Install Updates"@
    &&& !action.is_auto_fix
    &&& action.params == params
}

impl OsUpdateChecker {
    /// Identifies the checker.
    pub fn name(&self) -> (name: &'static str)
        ensures
            name@ == "os_update_checker"@,
    {
        "os_update_checker"
    }

    /// The aspect of the machine that the checker looks at.
    pub fn category(&self) -> (category: CheckCategory)
        ensures
            category == CheckCategory::Security,
    {
        CheckCategory::Security
    }

    /// The update status that a list of updates with this many lines stands
    /// for. The first two lines are headings; a list with more lines counts
    /// as three pending updates.
    pub fn status_from_listing(&self, lines: usize, current_build: String) -> (status:
        OsUpdateStatus)
        ensures
            status.is_current == (lines <= HEADER_LINES),
            status.current_build == current_build,
            status.latest_build is None,
            status.pending_updates == if lines <= HEADER_LINES {
                0u32
            } else {
                ASSUMED_PENDING
            },
    {
        let listed = lines > HEADER_LINES;
        OsUpdateStatus {
            is_current: !listed,
            current_build,
            latest_build: None,
            pending_updates: if listed {
                ASSUMED_PENDING
            } else {
                0
            },
        }
    }

    /// How severe pending updates are.
    pub fn pending_severity(&self, pending: u32) -> (severity: IssueSeverity)
        ensures
            severity == pending_severity_spec(pending),
    {
        if pending > 5 {
            IssueSeverity::Critical
        } else {
            IssueSeverity::Warning
        }
    }

    /// The issue that an update status makes: one where updates are pending,
    /// none otherwise.
    pub fn issue_for(&self, status: &OsUpdateStatus, params: serde_json::Value) -> (found: Option<
        Issue,
    >)
        ensures
            found is Some <==> status.pending_updates > 0,
            found matches Some(issue) ==> is_update_issue(status.pending_updates, params, issue),
    {
        if status.pending_updates == 0 {
            return None;
        }
        let mut title = decimal_string(status.pending_updates as u64);
        title.append(" Windows updates available");
        Some(
            Issue {
                id: "windows_update_pending".to_owned(),
                severity: self.pending_severity(status.pending_updates),
                title,
                description: "Keeping Windows updated is critical for security. Updates often include patches for vulnerabilities.".to_owned(),
                impact_category: ImpactCategory::Security,
                fix: Some(
                    FixAction {
                        action_id: "install_windows_updates".to_owned(),
                        label: "Install Updates".to_owned(),
                        is_auto_fix: false,
                        params,
                    },
                ),
            },
        )
    }
}

} // verus!
