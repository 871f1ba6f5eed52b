//! Latency, name resolution and download speed.

use vstd::prelude::*;
use vstd::string::StringExecFns;
use crate::text::{chars_equal, chars_of, decimal, decimal_string};
use crate::types::{CheckCategory, FixAction, ImpactCategory, Issue, IssueSeverity};

verus! {

/// Latency, name resolution and download speed.
#[derive(Debug, Clone, Copy)]
pub struct NetworkChecker;

/// The time that stands for "no answer", in milliseconds.
pub const NO_ANSWER_MS: u64 = 999;

/// What a round of timed attempts came to: the mean time of those that
/// succeeded, or the time that stands for "no answer" where none did.
pub open spec fn round_summary(total_ms: u64, successes: u64) -> (u64, bool) {
    if successes > 0 {
        ((total_ms / successes) as u64, true)
    } else {
        (NO_ANSWER_MS, false)
    }
}

/// How severe a mean latency is: nothing up to 150 ms, a warning up to
/// 300 ms, critical beyond.
pub open spec fn latency_severity_spec(mean_ms: u64) -> Option<IssueSeverity> {
    if mean_ms > 300 {
        Some(IssueSeverity::Critical)
    } else if mean_ms > 150 {
        Some(IssueSeverity::Warning)
    } else {
        None
    }
}

/// How severe a download speed is, in kilobits per second: critical below
/// one megabit, a warning below five, nothing from there on.
pub open spec fn speed_severity_spec(kbps: u64) -> Option<IssueSeverity> {
    if kbps < 1000 {
        Some(IssueSeverity::Critical)
    } else if kbps < 5000 {
        Some(IssueSeverity::Warning)
    } else {
        None
    }
}

/// `issue` is the issue that the latency round makes.
pub open spec fn is_latency_issue(mean_ms: u64, reachable: bool, issue: Issue) -> bool {
    if !reachable {
        issue.is_plain(
            "network_no_connection"@,
            IssueSeverity::Critical,
            "No Internet Connection"@,
            "Unable to reach external servers. Check your network connection."@,
            ImpactCategory::Performance,
        )
    } else {
        &&& latency_severity_spec(mean_ms) matches Some(severity)
        &&& issue.is_plain(
            "network_high_latency"@,
            severity,
            "High Network Latency ("@ + decimal(mean_ms as nat) + "ms)"@,
            "Your network latency is "@ + decimal(mean_ms as nat)
                + "ms. Good latency is under 50ms. This may cause lag in online activities."@,
            ImpactCategory::Performance,
        )
    }
}

/// The label of the fix for name resolution: the fix runs by itself on
/// Windows and shows instructions elsewhere.
pub open spec fn dns_fix_label(on_windows: bool) -> Seq<char> {
    if on_windows {
        "Change DNS to Cloudflare (1.1.1.1)"@
    } else {
        "Show DNS Fix Instructions"@
    }
}

/// `issue` is the issue that the name resolution round makes, with `params`
/// as the parameters of its fix.
pub open spec fn is_dns_issue(
    mean_ms: u64,
    resolved: bool,
    on_windows: bool,
    params: serde_json::Value,
    issue: Issue,
) -> bool {
    &&& issue.impact_category == ImpactCategory::Performance
    &&& issue.fix matches Some(action)
    &&& action.action_id@ == "fix_dns"@
    &&& action.label@ == dns_fix_label(on_windows)
    &&& action.is_auto_fix == on_windows
    &&& action.params == params
    &&& if !resolved {
        &&& issue.id@ == "network_dns_failure"@
        &&& issue.severity == IssueSeverity::Critical
        &&& issue.title@ == "DNS Resolution Failure"@
        &&& issue.description@
            == "Unable to resolve domain names. Your DNS server may be unavailable."@
    } else {
        &&& issue.id@ == "network_slow_dns"@
        &&& issue.severity == IssueSeverity::Info
        &&& issue.title@ == "Slow DNS Resolution ("@ + decimal(mean_ms as nat) + "ms)"@
        &&& issue.description@ == "DNS lookups are taking "@ + decimal(mean_ms as nat)
            + "ms. Consider switching to faster DNS servers like Cloudflare (1.1.1.1) or Google (8.8.8.8)."@
    }
}

impl NetworkChecker {
    /// The checker.
    pub fn new() -> Self {
        Self
    }

    /// Identifies the checker.
    pub fn name(&self) -> (name: &'static str)
        ensures
            name@ == "Network & Speed Checker"@,
    {
        "Network & Speed Checker"
    }

    /// The aspect of the machine that the checker looks at.
    pub fn category(&self) -> (category: CheckCategory)
        ensures
            category == CheckCategory::Performance,
    {
        CheckCategory::Performance
    }

    /// What a round of timed attempts came to.
    pub fn summarize_round(&self, total_ms: u64, successes: u64) -> (summary: (u64, bool))
        ensures
            summary == round_summary(total_ms, successes),
    {
        if successes > 0 {
            (total_ms / successes, true)
        } else {
            (NO_ANSWER_MS, false)
        }
    }

    /// How severe a mean latency is.
    pub fn latency_severity(&self, mean_ms: u64) -> (severity: Option<IssueSeverity>)
        ensures
            severity == latency_severity_spec(mean_ms),
    {
        if mean_ms > 300 {
            Some(IssueSeverity::Critical)
        } else if mean_ms > 150 {
            Some(IssueSeverity::Warning)
        } else {
            None
        }
    }

    /// How severe a download speed is.
    pub fn speed_severity(&self, kbps: u64) -> (severity: Option<IssueSeverity>)
        ensures
            severity == speed_severity_spec(kbps),
    {
        if kbps < 1000 {
            Some(IssueSeverity::Critical)
        } else if kbps < 5000 {
            Some(IssueSeverity::Warning)
        } else {
            None
        }
    }

    /// The issue that the latency round makes: one where no server answered
    /// or the mean latency is above 150 ms, none otherwise.
    pub fn latency_issue(&self, mean_ms: u64, reachable: bool) -> (found: Option<Issue>)
        ensures
            found is Some <==> !reachable || mean_ms > 150,
            found matches Some(issue) ==> is_latency_issue(mean_ms, reachable, issue),
    {
        if !reachable {
            return Some(
                Issue::plain(
                    "network_no_connection",
                    IssueSeverity::Critical,
                    "No Internet Connection",
                    "Unable to reach external servers. Check your network connection.",
                    ImpactCategory::Performance,
                ),
            );
        }
        match self.latency_severity(mean_ms) {
            Some(severity) => {
                let number = decimal_string(mean_ms);
                let mut title = "High Network Latency (".to_owned();
                title.append(number.as_str());
                title.append("ms)");
                let mut description = "Your network latency is ".to_owned();
                description.append(number.as_str());
                description.append(
                    "ms. Good latency is under 50ms. This may cause lag in online activities.",
                );
                Some(
                    Issue::plain(
                        "network_high_latency",
                        severity,
                        title.as_str(),
                        description.as_str(),
                        ImpactCategory::Performance,
                    ),
                )
            },
            None => None,
        }
    }

    /// The issue that the name resolution round makes: one where no name was
    /// resolved or the mean time is above 100 ms, none otherwise.
    pub fn dns_issue(
        &self,
        mean_ms: u64,
        resolved: bool,
        on_windows: bool,
        params: serde_json::Value,
    ) -> (found: Option<Issue>)
        ensures
            found is Some <==> !resolved || mean_ms > 100,
            found matches Some(issue) ==> is_dns_issue(mean_ms, resolved, on_windows, params, issue),
    {
        if resolved && mean_ms <= 100 {
            return None;
        }
        let label = if on_windows {
            "Change DNS to Cloudflare (1.1.1.1)".to_owned()
        } else {
            "Show DNS Fix Instructions".to_owned()
        };
        let fix = Some(
            FixAction { action_id: "fix_dns".to_owned(), label, is_auto_fix: on_windows, params },
        );
        if !resolved {
            Some(
                Issue {
                    id: "network_dns_failure".to_owned(),
                    severity: IssueSeverity::Critical,
                    title: "DNS Resolution Failure".to_owned(),
                    description: "Unable to resolve domain names. Your DNS server may be unavailable.".to_owned(),
                    impact_category: ImpactCategory::Performance,
                    fix,
                },
            )
        } else {
            let number = decimal_string(mean_ms);
            let mut title = "Slow DNS Resolution (".to_owned();
            title.append(number.as_str());
            title.append("ms)");
            let mut description = "DNS lookups are taking ".to_owned();
            description.append(number.as_str());
            description.append(
                "ms. Consider switching to faster DNS servers like Cloudflare (1.1.1.1) or Google (8.8.8.8).",
            );
            Some(
                Issue {
                    id: "network_slow_dns".to_owned(),
                    severity: IssueSeverity::Info,
                    title,
                    description,
                    impact_category: ImpactCategory::Performance,
                    fix,
                },
            )
        }
    }

    /// The issue about a proxy or VPN being configured.
    pub fn proxy_issue(&self) -> (issue: Issue)
        ensures
            issue.is_plain(
                "network_proxy_detected"@,
                IssueSeverity::Info,
                "Proxy/VPN Detected"@,
                "A proxy or VPN is configured. This may slow down your connection."@,
                ImpactCategory::Performance,
            ),
    {
        Issue::plain(
            "network_proxy_detected",
            IssueSeverity::Info,
            "Proxy/VPN Detected",
            "A proxy or VPN is configured. This may slow down your connection.",
            ImpactCategory::Performance,
        )
    }

    /// Whether the action is the checker's own: the two issues about name
    /// resolution.
    pub fn owns_action(&self, action_id: &str) -> (owns: bool)
        ensures
            owns == (action_id@ == "network_dns_failure"@ || action_id@ == "network_slow_dns"@),
    {
        let given = chars_of(action_id);
        let failure = chars_of("network_dns_failure");
        let slow = chars_of("network_slow_dns");
        chars_equal(&given, &failure) || chars_equal(&given, &slow)
    }
}

} // verus!
