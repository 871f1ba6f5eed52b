//! Unneeded programs that start with the system.

use vstd::prelude::*;
use vstd::string::StringExecFns;
use crate::engine::FixError;
use crate::text::{chars_equal, chars_of, contains_chars, is_prefix, is_substring, strip_prefix};
use crate::types::{CheckCategory, ImpactCategory, Issue, IssueSeverity};

verus! {

/// Unneeded programs that start with the system.
#[derive(Debug, Clone, Copy)]
pub struct BloatwareDetector;

/// One program that the detector knows: the text that gives it away in a
/// startup entry, the name it is reported under, and how severe it is.
#[derive(Debug, Clone, Copy)]
pub struct BloatwarePattern {
    pub pattern: &'static str,
    pub name: &'static str,
    pub severity: IssueSeverity,
}

/// The programs that the detector knows, in the order in which a startup
/// entry is held against them.
pub struct BloatwarePatterns {
    entries: Vec<BloatwarePattern>,
}

/// The detector's table as texts.
pub open spec fn known_patterns() -> Seq<(Seq<char>, Seq<char>, IssueSeverity)> {
    seq![
        ("spotify"@, "Spotify auto-start"@, IssueSeverity::Info),
        ("discord"@, "Discord auto-start"@, IssueSeverity::Info),
        ("skype"@, "Skype auto-start"@, IssueSeverity::Info),
        ("steam"@, "Steam auto-start"@, IssueSeverity::Info),
        ("epicgameslauncher"@, "Epic Games Launcher"@, IssueSeverity::Info),
        ("origin"@, "Origin auto-start"@, IssueSeverity::Info),
        ("uplay"@, "Uplay auto-start"@, IssueSeverity::Info),
        ("onedrive"@, "OneDrive sync"@, IssueSeverity::Warning),
        ("dropbox"@, "Dropbox sync"@, IssueSeverity::Warning),
        ("googledrive"@, "Google Drive sync"@, IssueSeverity::Warning),
        ("adobecreativecloud"@, "Adobe Creative Cloud"@, IssueSeverity::Warning),
        ("teamviewer"@, "TeamViewer"@, IssueSeverity::Warning),
        ("logmein"@, "LogMeIn"@, IssueSeverity::Warning),
        ("anydesk"@, "AnyDesk"@, IssueSeverity::Warning),
        ("hpwuschd"@, "HP Update Scheduler"@, IssueSeverity::Info),
        ("ccapp"@, "Norton/Symantec"@, IssueSeverity::Warning),
        ("avgui"@, "AVG Antivirus"@, IssueSeverity::Warning),
        ("mcafee"@, "McAfee"@, IssueSeverity::Critical),
        ("norton"@, "Norton Antivirus"@, IssueSeverity::Warning),
        ("slack"@, "Slack auto-start"@, IssueSeverity::Info),
        ("zoom"@, "Zoom auto-start"@, IssueSeverity::Info),
        ("teams"@, "Microsoft Teams"@, IssueSeverity::Warning),
        ("onenote"@, "OneNote auto-start"@, IssueSeverity::Info),
        ("itunes"@, "iTunes Helper"@, IssueSeverity::Warning),
        ("icloud"@, "iCloud sync"@, IssueSeverity::Warning),
        ("acrobat"@, "Adobe Acrobat Updater"@, IssueSeverity::Info),
        ("java"@, "Java Update Scheduler"@, IssueSeverity::Info),
        ("realtek"@, "Realtek Audio Manager"@, IssueSeverity::Info),
        ("nvidia"@, "NVIDIA Ge Force Experience"@, IssueSeverity::Warning),
    ]
}

/// One entry of the table as texts.
pub open spec fn entry_model(entry: BloatwarePattern) -> (Seq<char>, Seq<char>, IssueSeverity) {
    (entry.pattern@, entry.name@, entry.severity)
}

/// The first entry at or after `from` whose pattern occurs in `line`.
pub open spec fn first_match_from(
    table: Seq<(Seq<char>, Seq<char>, IssueSeverity)>,
    line: Seq<char>,
    from: int,
) -> Option<int>
    decreases table.len() - from,
{
    if from < 0 || from >= table.len() {
        None
    } else if is_substring(table[from].0, line) {
        Some(from)
    } else {
        first_match_from(table, line, from + 1)
    }
}

/// Where a program was found to start by itself.
#[derive(Debug, Clone, Copy, PartialEq, Eq, Structural)]
pub enum StartupSource {
    /// The list of programs that the system runs at sign-in.
    RunList,
    /// The task scheduler.
    ScheduledTask,
    /// The launch agents of the system.
    LaunchAgent,
    /// The services that the system enables at boot.
    SystemService,
    /// The desktop's directory of programs to start.
    Autostart,
}

/// What the identifier of an issue from a source begins with.
pub open spec fn id_prefix_of(source: StartupSource) -> Seq<char> {
    match source {
        StartupSource::ScheduledTask => "bloatware_task_"@,
        StartupSource::Autostart => "bloatware_autostart_"@,
        _ => "bloatware_"@,
    }
}

/// What the title of an issue from a source begins with.
pub open spec fn title_prefix_of(source: StartupSource) -> Seq<char> {
    match source {
        StartupSource::RunList => "Unnecessary startup program: "@,
        StartupSource::ScheduledTask => "Scheduled bloatware task: "@,
        StartupSource::LaunchAgent => "Unnecessary launch agent: "@,
        StartupSource::SystemService => "Unnecessary systemd service: "@,
        StartupSource::Autostart => "Autostart application: "@,
    }
}

/// What follows the name of the program in the description of an issue from
/// a source.
pub open spec fn advice_of(source: StartupSource) -> Seq<char> {
    match source {
        StartupSource::RunList => " is set to run at startup. This may slow down your boot time and consume system resources. Consider disabling it if you don't need it running constantly."@,
        StartupSource::ScheduledTask => " has scheduled tasks that run automatically. This may impact system performance."@,
        StartupSource::LaunchAgent => " is configured to launch automatically. Consider disabling it to improve system performance."@,
        StartupSource::SystemService => " service is enabled at startup. Consider disabling if not needed."@,
        StartupSource::Autostart => " is configured to start automatically. Remove from autostart to improve boot time."@,
    }
}

/// `issue` is the issue about the program of a table entry found in a source.
pub open spec fn is_source_issue(
    source: StartupSource,
    entry: (Seq<char>, Seq<char>, IssueSeverity),
    issue: Issue,
) -> bool {
    &&& issue.id@ == id_prefix_of(source) + entry.0
    &&& issue.severity == entry.2
    &&& issue.title@ == title_prefix_of(source) + entry.1
    &&& issue.description@ == entry.1 + advice_of(source)
    &&& issue.impact_category == ImpactCategory::Performance
    &&& issue.fix is None
}

/// What a fix of the detector acts on: the pattern that follows
/// `bloatware_` in the action, where the table knows it.
pub open spec fn fix_target_of(
    table: Seq<(Seq<char>, Seq<char>, IssueSeverity)>,
    action_id: Seq<char>,
) -> Option<Seq<char>> {
    let pattern = action_id.subrange("bloatware_"@.len() as int, action_id.len() as int);
    if is_prefix("bloatware_"@, action_id) && exists|i: int|
        0 <= i < table.len() && (#[trigger] table[i]).0 == pattern {
        Some(pattern)
    } else {
        None
    }
}

impl BloatwarePatterns {
    /// The table as texts.
    pub closed spec fn model(&self) -> Seq<(Seq<char>, Seq<char>, IssueSeverity)> {
        self.entries@.map_values(|entry: BloatwarePattern| entry_model(entry))
    }

    /// The number of entries.
    pub fn len(&self) -> (n: usize)
        ensures
            n == self.model().len(),
    {
        self.entries.len()
    }

    /// The entry at a position.
    pub fn entry(&self, index: usize) -> (entry: BloatwarePattern)
        requires
            index < self.model().len(),
        ensures
            entry_model(entry) == self.model()[index as int],
    {
        self.entries[index]
    }

    /// Whether the table has an entry with this pattern.
    pub fn contains_key(&self, pattern: &str) -> (found: bool)
        ensures
            found == exists|i: int|
                0 <= i < self.model().len() && (#[trigger] self.model()[i]).0 == pattern@,
    {
        let wanted = chars_of(pattern);
        let mut i: usize = 0;
        while i < self.entries.len()
            invariant
                i <= self.entries@.len(),
                wanted@ == pattern@,
                forall|k: int| 0 <= k < i ==> (#[trigger] self.model()[k]).0 != pattern@,
            decreases self.entries@.len() - i,
        {
            let candidate = chars_of(self.entries[i].pattern);
            if chars_equal(&candidate, &wanted) {
                assert(self.model()[i as int].0 == pattern@);
                return true;
            }
            i = i + 1;
        }
        false
    }

    /// The first entry whose pattern occurs in a startup entry that is
    /// already in lower case.
    pub fn first_match(&self, lowered_line: &str) -> (found: Option<usize>)
        ensures
            found is Some <==> first_match_from(self.model(), lowered_line@, 0) is Some,
            found matches Some(i) ==> first_match_from(self.model(), lowered_line@, 0) == Some(
                i as int,
            ),
    {
        let line = chars_of(lowered_line);
        let mut i: usize = 0;
        while i < self.entries.len()
            invariant
                i <= self.entries@.len(),
                line@ == lowered_line@,
                first_match_from(self.model(), lowered_line@, 0) == first_match_from(
                    self.model(),
                    lowered_line@,
                    i as int,
                ),
            decreases self.entries@.len() - i,
        {
            let pattern = chars_of(self.entries[i].pattern);
            assert(self.model()[i as int].0 == pattern@);
            if contains_chars(&line, &pattern) {
                return Some(i);
            }
            i = i + 1;
        }
        None
    }
}

impl BloatwareDetector {
    /// The checker.
    pub fn new() -> Self {
        Self
    }

    /// Identifies the checker.
    pub fn name(&self) -> (name: &'static str)
        ensures
            name@ == "Bloatware Detector"@,
    {
        "Bloatware Detector"
    }

    /// The aspect of the machine that the checker looks at.
    pub fn category(&self) -> (category: CheckCategory)
        ensures
            category == CheckCategory::Performance,
    {
        CheckCategory::Performance
    }

    /// The programs that the detector knows.
    pub fn bloatware_patterns() -> (table: BloatwarePatterns)
        ensures
            table.model() == known_patterns(),
    {
        let mut entries: Vec<BloatwarePattern> = Vec::new();
        entries.push(Self::known("spotify", "Spotify auto-start", IssueSeverity::Info));
        entries.push(Self::known("discord", "Discord auto-start", IssueSeverity::Info));
        entries.push(Self::known("skype", "Skype auto-start", IssueSeverity::Info));
        entries.push(Self::known("steam", "Steam auto-start", IssueSeverity::Info));
        entries.push(Self::known("epicgameslauncher", "Epic Games Launcher", IssueSeverity::Info));
        entries.push(Self::known("origin", "Origin auto-start", IssueSeverity::Info));
        entries.push(Self::known("uplay", "Uplay auto-start", IssueSeverity::Info));
        entries.push(Self::known("onedrive", "OneDrive sync", IssueSeverity::Warning));
        entries.push(Self::known("dropbox", "Dropbox sync", IssueSeverity::Warning));
        entries.push(Self::known("googledrive", "Google Drive sync", IssueSeverity::Warning));
        entries.push(
            Self::known("adobecreativecloud", "Adobe Creative Cloud", IssueSeverity::Warning),
        );
        entries.push(Self::known("teamviewer", "TeamViewer", IssueSeverity::Warning));
        entries.push(Self::known("logmein", "LogMeIn", IssueSeverity::Warning));
        entries.push(Self::known("anydesk", "AnyDesk", IssueSeverity::Warning));
        entries.push(Self::known("hpwuschd", "HP Update Scheduler", IssueSeverity::Info));
        entries.push(Self::known("ccapp", "Norton/Symantec", IssueSeverity::Warning));
        entries.push(Self::known("avgui", "AVG Antivirus", IssueSeverity::Warning));
        entries.push(Self::known("mcafee", "McAfee", IssueSeverity::Critical));
        entries.push(Self::known("norton", "Norton Antivirus", IssueSeverity::Warning));
        entries.push(Self::known("slack", "Slack auto-start", IssueSeverity::Info));
        entries.push(Self::known("zoom", "Zoom auto-start", IssueSeverity::Info));
        entries.push(Self::known("teams", "Microsoft Teams", IssueSeverity::Warning));
        entries.push(Self::known("onenote", "OneNote auto-start", IssueSeverity::Info));
        entries.push(Self::known("itunes", "iTunes Helper", IssueSeverity::Warning));
        entries.push(Self::known("icloud", "iCloud sync", IssueSeverity::Warning));
        entries.push(Self::known("acrobat", "Adobe Acrobat Updater", IssueSeverity::Info));
        entries.push(Self::known("java", "Java Update Scheduler", IssueSeverity::Info));
        entries.push(Self::known("realtek", "Realtek Audio Manager", IssueSeverity::Info));
        entries.push(Self::known("nvidia", "NVIDIA Ge Force Experience", IssueSeverity::Warning));
        let table = BloatwarePatterns { entries };
        assert(table.model() =~= known_patterns());
        table
    }

    fn known(pattern: &'static str, name: &'static str, severity: IssueSeverity) -> (entry:
        BloatwarePattern)
        ensures
            entry_model(entry) == (pattern@, name@, severity),
    {
        BloatwarePattern { pattern, name, severity }
    }

    /// The issue about a known program that a source starts by itself.
    pub fn issue_from(&self, source: StartupSource, entry: &BloatwarePattern) -> (issue: Issue)
        ensures
            is_source_issue(source, entry_model(*entry), issue),
    {
        let mut id = match source {
            StartupSource::ScheduledTask => "bloatware_task_".to_owned(),
            StartupSource::Autostart => "bloatware_autostart_".to_owned(),
            _ => "bloatware_".to_owned(),
        };
        id.append(entry.pattern);
        let mut title = match source {
            StartupSource::RunList => "Unnecessary startup program: ".to_owned(),
            StartupSource::ScheduledTask => "Scheduled bloatware task: ".to_owned(),
            StartupSource::LaunchAgent => "Unnecessary launch agent: ".to_owned(),
            StartupSource::SystemService => "Unnecessary systemd service: ".to_owned(),
            StartupSource::Autostart => "Autostart application: ".to_owned(),
        };
        title.append(entry.name);
        let mut description = entry.name.to_owned();
        description.append(
            match source {
                StartupSource::RunList => " is set to run at startup. This may slow down your boot time and consume system resources. Consider disabling it if you don't need it running constantly.",
                StartupSource::ScheduledTask => " has scheduled tasks that run automatically. This may impact system performance.",
                StartupSource::LaunchAgent => " is configured to launch automatically. Consider disabling it to improve system performance.",
                StartupSource::SystemService => " service is enabled at startup. Consider disabling if not needed.",
                StartupSource::Autostart => " is configured to start automatically. Remove from autostart to improve boot time.",
            },
        );
        Issue {
            id,
            severity: entry.severity,
            title,
            description,
            impact_category: ImpactCategory::Performance,
            fix: None,
        }
    }

    /// What a fix acts on. An action that does not begin with `bloatware_`
    /// is not the detector's; one that names no known program fails, so that
    /// nothing but a pattern of the table ever reaches a command line.
    pub fn fix_target(&self, action_id: &str) -> (target: Result<String, FixError>)
        ensures
            !is_prefix("bloatware_"@, action_id@) <==> target matches Err(FixError::NotApplicable),
            target matches Ok(pattern) ==> fix_target_of(known_patterns(), action_id@) == Some(
                pattern@,
            ),
            target is Ok <==> fix_target_of(known_patterns(), action_id@) is Some,
            target matches Err(FixError::Failed(reason)) ==> reason@
                == "Invalid bloatware pattern: "@ + action_id@.subrange(
                "bloatware_"@.len() as int,
                action_id@.len() as int,
            ),
    {
        match strip_prefix(action_id, "bloatware_") {
            None => Err(FixError::NotApplicable),
            Some(pattern) => {
                if Self::bloatware_patterns().contains_key(pattern.as_str()) {
                    Ok(pattern)
                } else {
                    let mut reason = "Invalid bloatware pattern: ".to_owned();
                    reason.append(pattern.as_str());
                    Err(FixError::Failed(reason))
                }
            },
        }
    }
}

} // verus!
