//! Whether the firewall is switched on.

use vstd::prelude::*;
use crate::text::{chars_equal, chars_of, contains, is_substring};
use crate::types::{CheckCategory, FixAction, ImpactCategory, Issue, IssueSeverity};

verus! {

/// Whether the firewall is switched on.
#[derive(Debug, Clone, Copy)]
pub struct FirewallChecker;

/// `issue` is the issue about the firewall being off, with `params` as the
/// parameters of its fix.
pub open spec fn is_firewall_issue(params: serde_json::Value, issue: Issue) -> bool {
    &&& issue.id@ == "firewall_disabled"@
    &&& issue.severity == IssueSeverity::Critical
    &&& issue.title@ == "Windows Firewall is OFF"@
    &&& issue.description@
        == "Your firewall protects against network attacks. Having it disabled leaves your computer vulnerable."@
    &&& issue.impact_category == ImpactCategory::Security
    &&& issue.fix matches Some(action)
    &&& action.action_id@ == "enable_firewall"@
    &&& action.label@ == "Enable Firewall"@
    &&& action.is_auto_fix
    &&& action.params == params
}

impl FirewallChecker {
    /// Identifies the checker.
    pub fn name(&self) -> (name: &'static str)
        ensures
            name@ == "firewall_checker"@,
    {
        "firewall_checker"
    }

    /// The aspect of the machine that the checker looks at.
    pub fn category(&self) -> (category: CheckCategory)
        ensures
            category == CheckCategory::Security,
    {
        CheckCategory::Security
    }

    /// Whether the state report of the firewall says that it is on.
    pub fn reports_on(&self, report: &str) -> (on: bool)
        ensures
            on == is_substring("ON"@, report@),
    {
        contains(report, "ON")
    }

    /// The issue that the state of the firewall makes: one where it is off,
    /// none where it is on.
    pub fn issue_for(&self, enabled: bool, params: serde_json::Value) -> (found: Option<Issue>)
        ensures
            found is Some <==> !enabled,
            found matches Some(issue) ==> is_firewall_issue(params, issue),
    {
        if enabled {
            return None;
        }
        Some(
            Issue {
                id: "firewall_disabled".to_owned(),
                severity: IssueSeverity::Critical,
                title: "Windows Firewall is OFF".to_owned(),
                description: "Your firewall protects against network attacks. Having it disabled leaves your computer vulnerable.".to_owned(),
                impact_category: ImpactCategory::Security,
                fix: Some(
                    FixAction {
                        action_id: "enable_firewall".to_owned(),
                        label: "Enable Firewall".to_owned(),
                        is_auto_fix: true,
                        params,
                    },
                ),
            },
        )
    }

    /// Whether the action is the checker's own: switching the firewall on.
    pub fn owns_action(&self, action_id: &str) -> (owns: bool)
        ensures
            owns == (action_id@ == "enable_firewall"@),
    {
        let wanted = chars_of("enable_firewall");
        let given = chars_of(action_id);
        chars_equal(&given, &wanted)
    }
}

} // verus!
