//! The boundary to the persisted store: the records that cross it and the
//! rules that are checked before a record is written or after one is read.
//!
//! The store itself is the caller's part. It hands over plain rows and gets
//! plain rows back.

use vstd::prelude::*;
use vstd::string::StringExecFns;
use crate::text::{
    chars_equal, chars_of, lowercase_of, to_lowercase, to_uppercase, uppercase_of,
};

verus! {

/// One line of the scan history.
#[derive(Debug, Clone)]
pub struct StoredScanSummary {
    pub scan_id: String,
    pub timestamp: u64,
    pub duration_ms: u64,
    pub health: u8,
    pub speed: u8,
}

/// How the scheduler is configured.
#[derive(Debug, Clone)]
pub struct AutomationSettings {
    pub automation_enabled: bool,
    /// `daily`, `weekly` or `monthly`.
    pub run_schedule: String,
    pub auto_fix_enabled: bool,
}

impl AutomationSettings {
    /// The settings of a store that holds none: automation off, weekly.
    pub open spec fn is_default(&self) -> bool {
        &&& !self.automation_enabled
        &&& self.run_schedule@ == "weekly"@
        &&& !self.auto_fix_enabled
    }
}

impl Default for AutomationSettings {
    fn default() -> (settings: Self)
        ensures
            settings.is_default(),
    {
        AutomationSettings {
            automation_enabled: false,
            run_schedule: "weekly".to_owned(),
            auto_fix_enabled: false,
        }
    }
}

/// One line of the change log.
#[derive(Debug, Clone)]
pub struct ChangelogEntry {
    pub timestamp: i64,
    pub action: String,
    pub path: String,
    pub size_bytes: i64,
    pub reason: String,
}

/// One of the three schedules that the store accepts.
pub open spec fn is_schedule(name: Seq<char>) -> bool {
    name == "daily"@ || name == "weekly"@ || name == "monthly"@
}

/// Whether `name` is one of the three schedules that the store accepts.
pub fn schedule_known(name: &str) -> (known: bool)
    ensures
        known == is_schedule(name@),
{
    let chars = chars_of(name);
    let daily = chars_of("daily");
    let weekly = chars_of("weekly");
    let monthly = chars_of("monthly");
    chars_equal(&chars, &daily) || chars_equal(&chars, &weekly) || chars_equal(&chars, &monthly)
}

/// Accepts a schedule that is already in lower case, or says why not.
pub fn check_schedule(lowered: String) -> (checked: Result<String, String>)
    ensures
        checked is Ok <==> is_schedule(lowered@),
        checked matches Ok(schedule) ==> schedule == lowered,
        checked matches Err(message) ==> message@ == "invalid run schedule: "@ + lowered@,
{
    if schedule_known(lowered.as_str()) {
        Ok(lowered)
    } else {
        let mut message = "invalid run schedule: ".to_owned();
        message.append(lowered.as_str());
        Err(message)
    }
}

/// The schedule as the store keeps it: in lower case, and one of the three
/// that the store accepts.
pub fn normalize_schedule(run_schedule: &str) -> (checked: Result<String, String>)
    ensures
        checked is Ok <==> is_schedule(lowercase_of(run_schedule@)),
        checked matches Ok(schedule) ==> schedule@ == lowercase_of(run_schedule@),
        checked matches Err(message) ==> message@ == "invalid run schedule: "@ + lowercase_of(
            run_schedule@,
        ),
{
    check_schedule(to_lowercase(run_schedule))
}

/// The settings as the store keeps them, or the reason why it refuses them:
/// the flags as they are and the schedule normalized.
pub fn settings_to_store(settings: &AutomationSettings) -> (checked: Result<
    AutomationSettings,
    String,
>)
    ensures
        checked is Ok <==> is_schedule(lowercase_of(settings.run_schedule@)),
        checked matches Ok(stored) ==> {
            &&& stored.automation_enabled == settings.automation_enabled
            &&& stored.run_schedule@ == lowercase_of(settings.run_schedule@)
            &&& stored.auto_fix_enabled == settings.auto_fix_enabled
        },
        checked matches Err(message) ==> message@ == "invalid run schedule: "@ + lowercase_of(
            settings.run_schedule@,
        ),
{
    match normalize_schedule(settings.run_schedule.as_str()) {
        Ok(run_schedule) => Ok(
            AutomationSettings {
                automation_enabled: settings.automation_enabled,
                run_schedule,
                auto_fix_enabled: settings.auto_fix_enabled,
            },
        ),
        Err(message) => Err(message),
    }
}

/// The settings row of the store: the two flags as integers, zero for off,
/// and the schedule.
pub struct SettingsRow {
    pub automation_enabled: i64,
    pub run_schedule: String,
    pub auto_fix_enabled: i64,
}

/// The settings that a store holds: those of its settings row, or the
/// defaults where it has none.
pub fn settings_from_row(row: Option<SettingsRow>) -> (settings: AutomationSettings)
    ensures
        match row {
            Some(stored) => {
                &&& settings.automation_enabled == (stored.automation_enabled != 0)
                &&& settings.run_schedule == stored.run_schedule
                &&& settings.auto_fix_enabled == (stored.auto_fix_enabled != 0)
            },
            None => settings.is_default(),
        },
{
    match row {
        Some(stored) => AutomationSettings {
            automation_enabled: stored.automation_enabled != 0,
            run_schedule: stored.run_schedule,
            auto_fix_enabled: stored.auto_fix_enabled != 0,
        },
        None => AutomationSettings::default(),
    }
}

/// A stored signed number read as an unsigned one: a negative number stands
/// for the value that has the same 64 bits.
pub open spec fn unsigned_of(stored: i64) -> u64 {
    if stored >= 0 {
        stored as u64
    } else {
        (stored + 0x1_0000_0000_0000_0000) as u64
    }
}

/// A stored signed number read as an unsigned one.
pub fn stored_unsigned(stored: i64) -> (value: u64)
    ensures
        value == unsigned_of(stored),
{
    if stored >= 0 {
        stored as u64
    } else {
        let below: u64 = (-(stored + 1)) as u64;
        u64::MAX - below
    }
}

/// The time of the latest scan, from the answer of the store: nothing where
/// the store has no scans.
pub fn last_scan_from_row(latest: Option<Option<i64>>) -> (timestamp: Option<u64>)
    ensures
        timestamp == match latest {
            Some(Some(stored)) => Some(unsigned_of(stored)),
            _ => None,
        },
{
    match latest {
        Some(Some(stored)) => Some(stored_unsigned(stored)),
        _ => None,
    }
}

/// The entry of the change log that a row of the store stands for, given
/// the action as it is shown: a row without a size counts as a size of zero.
pub fn changelog_entry(
    timestamp: i64,
    shown_action: String,
    path: String,
    size_bytes: Option<i64>,
    reason: String,
) -> (entry: ChangelogEntry)
    ensures
        entry.timestamp == timestamp,
        entry.action == shown_action,
        entry.path == path,
        entry.size_bytes == match size_bytes {
            Some(size) => size,
            None => 0i64,
        },
        entry.reason == reason,
{
    ChangelogEntry {
        timestamp,
        action: shown_action,
        path,
        size_bytes: match size_bytes {
            Some(size) => size,
            None => 0,
        },
        reason,
    }
}

/// The entry of the change log that a row of the store stands for: the
/// action is shown in capitals, and a row without a size counts as a size of
/// zero.
pub fn changelog_from_row(
    timestamp: i64,
    action: &str,
    path: String,
    size_bytes: Option<i64>,
    reason: String,
) -> (entry: ChangelogEntry)
    ensures
        entry.timestamp == timestamp,
        entry.action@ == uppercase_of(action@),
        entry.path == path,
        entry.size_bytes == match size_bytes {
            Some(size) => size,
            None => 0i64,
        },
        entry.reason == reason,
{
    changelog_entry(timestamp, to_uppercase(action), path, size_bytes, reason)
}

} // verus!
