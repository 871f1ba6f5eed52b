//! The automation scheduler: when a scan is due, what one iteration of the
//! loop does next, and the batch of automatic fixes after a scan.
//!
//! The loop itself, with its sleeps and its reads and writes, is the
//! caller's part. It performs the action that `step` names and hands back
//! what came of it.

use vstd::prelude::*;
use vstd::string::StringExecFns;
use crate::db::AutomationSettings;
use crate::engine::ScannerEngine;
use crate::license::{License, ProFeature};
use crate::text::{chars_equal, chars_of};
use crate::types::{FixResult, Issue};

verus! {

/// Seconds that the loop sleeps between two iterations.
pub const SLEEP_INTERVAL_SECONDS: u64 = 3600;

/// Seconds in a day.
pub const DAY: u64 = 86400;

/// Seconds between two scans under a schedule: a day, seven days or thirty
/// days, and seven days for any other name.
pub open spec fn interval_of(schedule: Seq<char>) -> nat {
    if schedule == "daily"@ {
        86400
    } else if schedule == "monthly"@ {
        2592000
    } else {
        604800
    }
}

/// Seconds between two scans under a schedule.
pub fn required_interval_seconds(schedule: &str) -> (seconds: u64)
    ensures
        seconds as nat == interval_of(schedule@),
{
    let name = chars_of(schedule);
    let daily = chars_of("daily");
    let monthly = chars_of("monthly");
    if chars_equal(&name, &daily) {
        DAY
    } else if chars_equal(&name, &monthly) {
        30 * DAY
    } else {
        7 * DAY
    }
}

/// A scan is due: none was made yet, or the interval has passed since the
/// last one.
pub open spec fn is_due(last_scan: Option<u64>, now: u64, interval: nat) -> bool {
    match last_scan {
        Some(at) => now >= at + interval,
        None => true,
    }
}

/// Whether a scan is due.
pub fn scan_due(last_scan: Option<u64>, now: u64, interval: u64) -> (due: bool)
    ensures
        due == is_due(last_scan, now, interval as nat),
{
    match last_scan {
        Some(at) => match at.checked_add(interval) {
            Some(next) => now >= next,
            None => false,
        },
        None => true,
    }
}

/// Whether the scheduler runs a scan now: automation is on and a scan is due
/// under the schedule of the settings.
pub fn should_run_scan(settings: &AutomationSettings, last_scan: Option<u64>, now: u64) -> (run:
    bool)
    ensures
        run == (settings.automation_enabled && is_due(
            last_scan,
            now,
            interval_of(settings.run_schedule@),
        )),
{
    if !settings.automation_enabled {
        return false;
    }
    let interval = required_interval_seconds(settings.run_schedule.as_str());
    scan_due(last_scan, now, interval)
}

/// Why an iteration ended.
#[derive(Debug, Clone)]
pub enum IterationOutcome {
    /// Automation is switched off. Nothing else was looked at.
    Disabled,
    /// The license does not allow automation.
    NotEntitled,
    /// No scan is due yet.
    NotDue,
    /// A scan was made and saved.
    Completed,
    /// A step failed. The loop logs the reason and goes on.
    Failed(String),
}

/// Where an iteration stands.
#[derive(Debug, Clone)]
pub enum IterationState {
    AwaitingSettings,
    AwaitingLicense { settings: AutomationSettings },
    AwaitingLastScan { settings: AutomationSettings },
    AwaitingScan,
    Finished,
}

/// What came of the action that the scheduler asked for.
#[derive(Debug, Clone)]
pub enum IterationEvent {
    SettingsLoaded(AutomationSettings),
    LicenseLoaded(License),
    LastScanKnown(Option<u64>),
    ScanSaved,
    /// The action failed; the payload says why.
    Failed(String),
}

/// What the loop does next.
#[derive(Debug, Clone)]
pub enum IterationAction {
    /// Open the store and read the settings.
    LoadSettings,
    /// Read the license file.
    LoadLicense,
    /// Ask the store for the time of the latest scan.
    QueryLastScan,
    /// Run a full scan, apply the automatic fixes if asked to, and save the
    /// result whatever the fixes came to.
    ScanAndSave { auto_fix: bool },
    /// Sleep until the next iteration.
    Finish(IterationOutcome),
}

/// The message of an event that does not answer the pending action.
pub open spec fn out_of_order_message() -> Seq<char> {
    "scheduler event out of order"@
}

/// The step that follows `event` in `state` at the time `now`, as a relation
/// between before and after.
pub open spec fn step_spec(
    state: IterationState,
    event: IterationEvent,
    now: i64,
    next: IterationState,
    action: IterationAction,
) -> bool {
    match (state, event) {
        (_, IterationEvent::Failed(reason)) => {
            &&& next is Finished
            &&& action matches IterationAction::Finish(IterationOutcome::Failed(message))
            &&& message@ == match state {
                IterationState::AwaitingLicense { .. } => "failed to load license: "@ + reason@,
                _ => reason@,
            }
        },
        (IterationState::AwaitingSettings, IterationEvent::SettingsLoaded(settings)) => {
            if settings.automation_enabled {
                &&& next == (IterationState::AwaitingLicense { settings })
                &&& action is LoadLicense
            } else {
                &&& next is Finished
                &&& action matches IterationAction::Finish(IterationOutcome::Disabled)
            }
        },
        (IterationState::AwaitingLicense { settings }, IterationEvent::LicenseLoaded(license)) => {
            if license.grants_spec(ProFeature::Automation, now as int) {
                &&& next == (IterationState::AwaitingLastScan { settings })
                &&& action is QueryLastScan
            } else {
                &&& next is Finished
                &&& action matches IterationAction::Finish(IterationOutcome::NotEntitled)
            }
        },
        (IterationState::AwaitingLastScan { settings }, IterationEvent::LastScanKnown(last_scan)) => {
            if settings.automation_enabled && is_due(
                last_scan,
                crate::clock::epoch_seconds_spec(now),
                interval_of(settings.run_schedule@),
            ) {
                &&& next is AwaitingScan
                &&& action == (IterationAction::ScanAndSave { auto_fix: settings.auto_fix_enabled })
            } else {
                &&& next is Finished
                &&& action matches IterationAction::Finish(IterationOutcome::NotDue)
            }
        },
        (IterationState::AwaitingScan, IterationEvent::ScanSaved) => {
            &&& next is Finished
            &&& action matches IterationAction::Finish(IterationOutcome::Completed)
        },
        _ => {
            &&& next is Finished
            &&& action matches IterationAction::Finish(IterationOutcome::Failed(message))
            &&& message@ == out_of_order_message()
        },
    }
}

/// Starts an iteration: the settings are read first.
pub fn begin_iteration() -> (start: (IterationState, IterationAction))
    ensures
        start.0 is AwaitingSettings,
        start.1 is LoadSettings,
{
    (IterationState::AwaitingSettings, IterationAction::LoadSettings)
}

fn finish_failed(message: String) -> (end: (IterationState, IterationAction))
    ensures
        end.0 is Finished,
        end.1 matches IterationAction::Finish(IterationOutcome::Failed(m)) && m == message,
{
    (IterationState::Finished, IterationAction::Finish(IterationOutcome::Failed(message)))
}

/// One step of an iteration: from where it stands and what came of the last
/// action to where it stands next and what to do. Switched-off automation
/// ends the iteration before the license is looked at, a license without the
/// capability ends it before the store is asked, and a failure ends it at
/// any point.
pub fn step(state: IterationState, event: IterationEvent, now: i64) -> (after: (
    IterationState,
    IterationAction,
))
    ensures
        step_spec(state, event, now, after.0, after.1),
{
    match event {
        IterationEvent::Failed(reason) => match state {
            IterationState::AwaitingLicense { settings } => {
                let mut message = "failed to load license: ".to_owned();
                message.append(reason.as_str());
                finish_failed(message)
            },
            _ => finish_failed(reason),
        },
        IterationEvent::SettingsLoaded(settings) => match state {
            IterationState::AwaitingSettings => {
                if settings.automation_enabled {
                    (IterationState::AwaitingLicense { settings }, IterationAction::LoadLicense)
                } else {
                    (IterationState::Finished, IterationAction::Finish(IterationOutcome::Disabled))
                }
            },
            _ => finish_failed("scheduler event out of order".to_owned()),
        },
        IterationEvent::LicenseLoaded(license) => match state {
            IterationState::AwaitingLicense { settings } => {
                if license.has_pro_feature_at(ProFeature::Automation, now) {
                    (IterationState::AwaitingLastScan { settings }, IterationAction::QueryLastScan)
                } else {
                    (
                        IterationState::Finished,
                        IterationAction::Finish(IterationOutcome::NotEntitled),
                    )
                }
            },
            _ => finish_failed("scheduler event out of order".to_owned()),
        },
        IterationEvent::LastScanKnown(last_scan) => match state {
            IterationState::AwaitingLastScan { settings } => {
                if should_run_scan(&settings, last_scan, crate::clock::epoch_seconds(now)) {
                    (
                        IterationState::AwaitingScan,
                        IterationAction::ScanAndSave { auto_fix: settings.auto_fix_enabled },
                    )
                } else {
                    (IterationState::Finished, IterationAction::Finish(IterationOutcome::NotDue))
                }
            },
            _ => finish_failed("scheduler event out of order".to_owned()),
        },
        IterationEvent::ScanSaved => match state {
            IterationState::AwaitingScan => (
                IterationState::Finished,
                IterationAction::Finish(IterationOutcome::Completed),
            ),
            _ => finish_failed("scheduler event out of order".to_owned()),
        },
    }
}

/// What one automatic fix came to.
#[derive(Debug, Clone)]
pub struct AutoFixRecord {
    pub issue_id: String,
    pub action_id: String,
    pub result: FixResult,
}

/// The test for issues that carry a fix that may run unasked.
pub open spec fn is_auto_fixable() -> spec_fn(Issue) -> bool {
    |issue: Issue| issue.auto_fixable_spec()
}

/// The issues that carry a fix that may run unasked, in their order.
pub open spec fn auto_fixable(issues: Seq<Issue>) -> Seq<Issue> {
    issues.filter(is_auto_fixable())
}

/// `record` tells what the engine's dispatch of the fix of `issue` came to:
/// the checkers were asked for the action of the issue with the parameters
/// of the issue.
pub open spec fn records_fix_of(engine: ScannerEngine, issue: Issue, record: AutoFixRecord) -> bool {
    &&& issue.fix is Some
    &&& record.issue_id@ == issue.id@
    &&& record.action_id@ == issue.fix->0.action_id@
    &&& engine.dispatches_to(issue.fix->0.action_id@, issue.fix->0.params, record.result)
}

/// Attempts every automatic fix among `issues`, each on its own: a fix that
/// fails stops none of the others. There is one record for each issue that
/// carries such a fix, in the order of the issues.
pub fn auto_fix_all(engine: &ScannerEngine, issues: &Vec<Issue>) -> (report: Vec<AutoFixRecord>)
    ensures
        report@.len() == auto_fixable(issues@).len(),
        forall|k: int|
            0 <= k < report@.len() ==> records_fix_of(
                *engine,
                auto_fixable(issues@)[k],
                #[trigger] report@[k],
            ),
{
    let mut report: Vec<AutoFixRecord> = Vec::new();
    let mut i: usize = 0;
    proof {
        reveal(Seq::filter);
        assert(issues@.take(0) =~= Seq::<Issue>::empty());
    }
    while i < issues.len()
        invariant
            i <= issues@.len(),
            report@.len() == auto_fixable(issues@.take(i as int)).len(),
            forall|k: int|
                0 <= k < report@.len() ==> records_fix_of(
                    *engine,
                    auto_fixable(issues@.take(i as int))[k],
                    #[trigger] report@[k],
                ),
        decreases issues@.len() - i,
    {
        let issue = &issues[i];
        proof {
            reveal(Seq::filter);
            assert(issues@.take(i + 1).drop_last() =~= issues@.take(i as int));
            assert(issues@.take(i + 1).last() == *issue);
        }
        let ghost before = auto_fixable(issues@.take(i as int));
        match &issue.fix {
            Some(action) => {
                if action.is_auto_fix {
                    let result = engine.fix_issue(action.action_id.as_str(), &action.params);
                    report.push(
                        AutoFixRecord {
                            issue_id: issue.id.clone(),
                            action_id: action.action_id.clone(),
                            result,
                        },
                    );
                    assert(auto_fixable(issues@.take(i + 1)) == before.push(*issue));
                } else {
                    assert(auto_fixable(issues@.take(i + 1)) == before);
                }
            },
            None => {
                assert(auto_fixable(issues@.take(i + 1)) == before);
            },
        }
        i = i + 1;
    }
    assert(issues@.take(issues@.len() as int) =~= issues@);
    report
}

} // verus!
