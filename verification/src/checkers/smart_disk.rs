//! Drive health as the drives report it.

use vstd::prelude::*;
use vstd::string::StringExecFns;
use crate::parse::{
    decimal_value, fields, fields_of, parse_bounded, parse_u64, split_chars, split_on,
    strip_percent, without_percent,
};
use crate::text::{
    chars_of, contains, decimal, decimal_string, is_prefix, is_substring, replace_each,
    replacing, starts_with, string_of, trim_chars, trimmed_of,
};
use crate::types::{CheckCategory, ImpactCategory, Issue, IssueSeverity};

verus! {

/// Drive health as the drives report it.
#[derive(Debug, Clone, Copy)]
pub struct SmartDiskChecker;

/// What a drive says of its own health.
#[derive(Debug, Clone, Copy, PartialEq, Eq, Structural)]
pub enum DriveHealth {
    /// The drive predicts its failure or reports an error.
    Failing,
    Degraded,
    Healthy,
}

/// The health that a status line stands for.
pub open spec fn health_of(line: Seq<char>) -> DriveHealth {
    if is_substring("Pred Fail"@, line) || is_substring("Error"@, line) {
        DriveHealth::Failing
    } else if is_substring("Degraded"@, line) {
        DriveHealth::Degraded
    } else {
        DriveHealth::Healthy
    }
}

/// How severe little free space is, by the percentage that is free:
/// critical below five, a warning below ten, nothing from there on.
pub open spec fn free_severity_spec(percent_free: u64) -> Option<IssueSeverity> {
    if percent_free < 5 {
        Some(IssueSeverity::Critical)
    } else if percent_free < 10 {
        Some(IssueSeverity::Warning)
    } else {
        None
    }
}

/// How severe a full volume is, by the percentage that is used: critical
/// above ninety-five, a warning above ninety, nothing up to there.
pub open spec fn used_severity_spec(percent_used: u8) -> Option<IssueSeverity> {
    if percent_used > 95 {
        Some(IssueSeverity::Critical)
    } else if percent_used > 90 {
        Some(IssueSeverity::Warning)
    } else {
        None
    }
}

/// What a line of the usage listing says of a volume: the percentage in use
/// and the mount point. A line counts where it has at least five fields of
/// which the fifth is a percentage; the mount point is the last field.
pub open spec fn usage_row_of(line: Seq<char>) -> Option<(u8, Seq<char>)> {
    let f = fields_of(line);
    if f.len() >= 5 {
        match decimal_value(without_percent(f[4])) {
            Some(n) => if n <= 255 {
                Some((n as u8, f.last()))
            } else {
                None
            },
            None => None,
        }
    } else {
        None
    }
}

/// `issue` is the issue about a drive of which this percentage is free.
pub open spec fn is_free_space_issue(drive: Seq<char>, percent_free: u64, issue: Issue) -> bool {
    &&& Some(issue.severity) == free_severity_spec(percent_free)
    &&& issue.id@ == "disk_low_space_"@ + drive
    &&& issue.title@ == "Low Disk Space on "@ + drive
    &&& issue.description@ == "Drive "@ + drive + " has only "@ + decimal(percent_free as nat)
        + "% free space. Free up disk space or your system may become unstable."@
    &&& issue.impact_category == ImpactCategory::Performance
    &&& issue.fix is None
}

/// `issue` is the issue about a volume of which this percentage is in use,
/// with the advice that the system at hand calls for.
pub open spec fn is_usage_issue(
    mount: Seq<char>,
    percent_used: u8,
    advice: Seq<char>,
    issue: Issue,
) -> bool {
    &&& Some(issue.severity) == used_severity_spec(percent_used)
    &&& issue.id@ == "disk_low_space_"@ + replacing(mount, seq!['/'], Some('_'))
    &&& issue.title@ == "Low Disk Space on "@ + mount
    &&& issue.description@ == mount + " is "@ + decimal(percent_used as nat) + "% full. "@ + advice
    &&& issue.impact_category == ImpactCategory::Performance
    &&& issue.fix is None
}

/// The number that a field stands for, blanks around it aside, where it
/// fits in 64 bits.
pub open spec fn bytes_of(field: Seq<char>) -> Option<nat> {
    match decimal_value(trimmed_of(field)) {
        Some(n) => if n <= u64::MAX {
            Some(n)
        } else {
            None
        },
        None => None,
    }
}

/// What a line of the comma-separated listing of free space says of a
/// drive: its name and the whole percentage of it that is free. A line
/// counts where it has at least four fields between commas of which the
/// third and the fourth are numbers, the free space and the size, the size
/// is not zero and the free space is no more than the size.
pub open spec fn space_row_of(line: Seq<char>) -> Option<(Seq<char>, nat)> {
    let f = split_on(line, ',');
    if f.len() >= 4 {
        match (bytes_of(f[2]), bytes_of(f[3])) {
            (Some(free), Some(total)) => if 0 < total && free <= total {
                Some((trimmed_of(f[1]), (free * 100) / total))
            } else {
                None
            },
            _ => None,
        }
    } else {
        None
    }
}

impl SmartDiskChecker {
    /// What a line of the usage listing says of a volume.
    pub fn parse_usage_line(&self, line: &Vec<char>) -> (parsed: Option<(u8, String)>)
        ensures
            parsed is Some <==> usage_row_of(line@) is Some,
            parsed matches Some(row) ==> usage_row_of(line@) == Some((row.0, row.1@)),
    {
        let f = fields(line);
        if f.len() < 5 {
            return None;
        }
        let digits = strip_percent(&f[4]);
        match parse_bounded(&digits, 255) {
            Some(percent) => Some((percent as u8, string_of(&f[f.len() - 1]))),
            None => None,
        }
    }

    /// The checker.
    pub fn new() -> Self {
        Self
    }

    /// Identifies the checker.
    pub fn name(&self) -> (name: &'static str)
        ensures
            name@ == "S.M.A.R.T. Disk Health"@,
    {
        "S.M.A.R.T. Disk Health"
    }

    /// The aspect of the machine that the checker looks at.
    pub fn category(&self) -> (category: CheckCategory)
        ensures
            category == CheckCategory::Performance,
    {
        CheckCategory::Performance
    }

    /// The health that a status line stands for.
    pub fn classify_status(&self, line: &str) -> (health: DriveHealth)
        ensures
            health == health_of(line@),
    {
        if contains(line, "Pred Fail") || contains(line, "Error") {
            DriveHealth::Failing
        } else if contains(line, "Degraded") {
            DriveHealth::Degraded
        } else {
            DriveHealth::Healthy
        }
    }

    /// The issue that the health of a drive makes: none for a healthy drive.
    pub fn health_issue(&self, health: DriveHealth) -> (found: Option<Issue>)
        ensures
            found is Some <==> health != DriveHealth::Healthy,
            health == DriveHealth::Failing ==> (found matches Some(issue) && issue.is_plain(
                "disk_smart_failure"@,
                IssueSeverity::Critical,
                "Hard Drive Failure Predicted"@,
                "S.M.A.R.T. indicates imminent drive failure. BACK UP YOUR DATA IMMEDIATELY and replace this drive."@,
                ImpactCategory::Performance,
            )),
            health == DriveHealth::Degraded ==> (found matches Some(issue) && issue.is_plain(
                "disk_smart_degraded"@,
                IssueSeverity::Warning,
                "Hard Drive Health Degraded"@,
                "The drive is showing signs of degradation. Monitor closely and plan for replacement."@,
                ImpactCategory::Performance,
            )),
    {
        match health {
            DriveHealth::Failing => Some(
                Issue::plain(
                    "disk_smart_failure",
                    IssueSeverity::Critical,
                    "Hard Drive Failure Predicted",
                    "S.M.A.R.T. indicates imminent drive failure. BACK UP YOUR DATA IMMEDIATELY and replace this drive.",
                    ImpactCategory::Performance,
                ),
            ),
            DriveHealth::Degraded => Some(
                Issue::plain(
                    "disk_smart_degraded",
                    IssueSeverity::Warning,
                    "Hard Drive Health Degraded",
                    "The drive is showing signs of degradation. Monitor closely and plan for replacement.",
                    ImpactCategory::Performance,
                ),
            ),
            DriveHealth::Healthy => None,
        }
    }

    /// How severe little free space is, by the percentage that is free.
    pub fn free_severity(&self, percent_free: u64) -> (severity: Option<IssueSeverity>)
        ensures
            severity == free_severity_spec(percent_free),
    {
        if percent_free < 5 {
            Some(IssueSeverity::Critical)
        } else if percent_free < 10 {
            Some(IssueSeverity::Warning)
        } else {
            None
        }
    }

    /// How severe a full volume is, by the percentage that is used.
    pub fn used_severity(&self, percent_used: u8) -> (severity: Option<IssueSeverity>)
        ensures
            severity == used_severity_spec(percent_used),
    {
        if percent_used > 95 {
            Some(IssueSeverity::Critical)
        } else if percent_used > 90 {
            Some(IssueSeverity::Warning)
        } else {
            None
        }
    }

    /// What a line of the comma-separated listing of free space says of a
    /// drive: its name and the percentage of it that is free.
    pub fn parse_space_line(&self, line: &Vec<char>) -> (parsed: Option<(String, u64)>)
        ensures
            parsed is Some <==> space_row_of(line@) is Some,
            parsed matches Some(row) ==> space_row_of(line@) == Some((row.0@, row.1 as nat))
                && row.1 <= 100,
    {
        let f = split_chars(line, ',');
        if f.len() < 4 {
            return None;
        }
        let free = parse_u64(&trim_chars(&f[2]));
        let total = parse_u64(&trim_chars(&f[3]));
        match (free, total) {
            (Some(free_bytes), Some(total_bytes)) => {
                if total_bytes == 0 || free_bytes > total_bytes {
                    return None;
                }
                let scaled: u128 = free_bytes as u128 * 100;
                let percent: u128 = scaled / (total_bytes as u128);
                assert(percent <= 100) by (nonlinear_arith)
                    requires
                        percent == scaled / (total_bytes as u128),
                        scaled == free_bytes * 100,
                        0 < total_bytes,
                        free_bytes <= total_bytes,
                ;
                Some((string_of(&trim_chars(&f[1])), percent as u64))
            },
            _ => None,
        }
    }

    /// The issue about a drive of which this percentage is free: one below
    /// ten percent, none from there on.
    pub fn free_space_issue(&self, drive: &str, percent_free: u64) -> (found: Option<Issue>)
        ensures
            found is Some <==> percent_free < 10,
            found matches Some(issue) ==> is_free_space_issue(drive@, percent_free, issue),
    {
        match self.free_severity(percent_free) {
            None => None,
            Some(severity) => {
                let mut id = "disk_low_space_".to_owned();
                id.append(drive);
                let mut title = "Low Disk Space on ".to_owned();
                title.append(drive);
                let mut description = "Drive ".to_owned();
                description.append(drive);
                description.append(" has only ");
                description.append(decimal_string(percent_free).as_str());
                description.append(
                    "% free space. Free up disk space or your system may become unstable.",
                );
                Some(
                    Issue::plain(
                        id.as_str(),
                        severity,
                        title.as_str(),
                        description.as_str(),
                        ImpactCategory::Performance,
                    ),
                )
            },
        }
    }

    /// The issue about a volume of which this percentage is in use: one
    /// above ninety percent, none up to there.
    pub fn usage_issue(&self, mount: &str, percent_used: u8, advice: &str) -> (found: Option<
        Issue,
    >)
        ensures
            found is Some <==> percent_used > 90,
            found matches Some(issue) ==> is_usage_issue(mount@, percent_used, advice@, issue),
    {
        match self.used_severity(percent_used) {
            None => None,
            Some(severity) => {
                let mut slash: Vec<char> = Vec::new();
                slash.push('/');
                assert(slash@ =~= seq!['/']);
                let key = string_of(&replace_each(&chars_of(mount), &slash, Some('_')));
                let mut id = "disk_low_space_".to_owned();
                id.append(key.as_str());
                let mut title = "Low Disk Space on ".to_owned();
                title.append(mount);
                let mut description = mount.to_owned();
                description.append(" is ");
                description.append(decimal_string(percent_used as u64).as_str());
                description.append("% full. ");
                description.append(advice);
                Some(
                    Issue::plain(
                        id.as_str(),
                        severity,
                        title.as_str(),
                        description.as_str(),
                        ImpactCategory::Performance,
                    ),
                )
            },
        }
    }

    /// Whether the action is the checker's own: the issues about little free
    /// space.
    pub fn owns_action(&self, action_id: &str) -> (owns: bool)
        ensures
            owns == is_prefix("disk_low_space_"@, action_id@),
    {
        starts_with(action_id, "disk_low_space_")
    }
}

} // verus!
