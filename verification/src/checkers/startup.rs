//! Programs that start with the system.

use vstd::prelude::*;
use vstd::string::StringExecFns;
use crate::parse::{after_headings, lines, lines_of, split_chars, split_on};
use crate::text::{
    chars_of, contains_any, decimal, decimal_string, is_substring, lowercase_of, replace_each,
    replacing, string_of, to_lowercase,
};
use crate::types::{
    CheckCategory, FixAction, ImpactCategory, Issue, IssueSeverity, ScanContext, StartupItem,
};

verus! {

/// Programs that start with the system.
#[derive(Debug, Clone, Copy)]
pub struct StartupAnalyzer;

/// The number of startup programs above which there are too many.
pub const MANY_STARTUP_ITEMS: usize = 15;

/// The name, in lower case, holds the name of a program that is known to
/// slow the machine down for little in return.
pub open spec fn names_bloatware(lowered: Seq<char>) -> bool {
    ||| is_substring("mcafee"@, lowered)
    ||| is_substring("norton"@, lowered)
    ||| is_substring("wildtangent"@, lowered)
    ||| is_substring("candy crush"@, lowered)
    ||| is_substring("spotify web helper"@, lowered)
    ||| is_substring("skype"@, lowered)
}

/// Whether a name that is already in lower case holds the name of known
/// bloatware.
pub fn bloatware_named(lowered: &str) -> (known: bool)
    ensures
        known == names_bloatware(lowered@),
{
    let mut needles: Vec<&str> = Vec::new();
    needles.push("mcafee");
    needles.push("norton");
    needles.push("wildtangent");
    needles.push("candy crush");
    needles.push("spotify web helper");
    needles.push("skype");
    let found = contains_any(lowered, &needles);
    proof {
        if found {
            let i = choose|i: int| 0 <= i < needles@.len() && is_substring(#[trigger] needles@[i]@, lowered@);
            assert(names_bloatware(lowered@));
        } else {
            assert(!is_substring(needles@[0]@, lowered@));
            assert(!is_substring(needles@[1]@, lowered@));
            assert(!is_substring(needles@[2]@, lowered@));
            assert(!is_substring(needles@[3]@, lowered@));
            assert(!is_substring(needles@[4]@, lowered@));
            assert(!is_substring(needles@[5]@, lowered@));
        }
    }
    found
}

/// Whether the program is known bloatware, by its name without regard to
/// case.
pub fn is_known_bloatware(name: &str) -> (known: bool)
    ensures
        known == names_bloatware(lowercase_of(name@)),
{
    let lowered = to_lowercase(name);
    bloatware_named(lowered.as_str())
}

/// `issue` is the issue about `count` startup programs being too many, with
/// `params` as the parameters of its fix.
pub open spec fn is_excess_issue(count: nat, params: serde_json::Value, issue: Issue) -> bool {
    &&& issue.id@ == "excessive_startup_items"@
    &&& issue.severity == IssueSeverity::Warning
    &&& issue.title@ == decimal(count) + " apps slow your boot"@
    &&& issue.description@ == "You have "@ + decimal(count)
        + " programs starting with Windows. Each adds 0.5-2 seconds to boot time. Consider disabling unnecessary ones."@
    &&& issue.impact_category == ImpactCategory::Performance
    &&& issue.fix matches Some(action)
    &&& action.action_id@ == "optimize_startup"@
    &&& action.label@ == "Optimize Startup"@
    &&& !action.is_auto_fix
    &&& action.params == params
}

/// `issue` is the issue about the startup program `name` being bloatware,
/// with `params` as the parameters of its fix.
pub open spec fn is_bloatware_issue(name: Seq<char>, params: serde_json::Value, issue: Issue) -> bool {
    &&& issue.id@ == "bloatware_startup_"@ + replacing(lowercase_of(name), seq![' '], Some('_'))
    &&& issue.severity == IssueSeverity::Info
    &&& issue.title@ == name + " is known bloatware"@
    &&& issue.description@
        == "This program is known to slow down your computer without providing much value."@
    &&& issue.impact_category == ImpactCategory::Performance
    &&& issue.fix matches Some(action)
    &&& action.action_id@ == "disable_startup_"@ + name
    &&& action.label@ == "Disable"@
    &&& action.is_auto_fix
    &&& action.params == params
}

/// Delay that a startup program is taken to cause, in milliseconds.
pub const ASSUMED_DELAY_MS: u32 = 1000;

/// What a line of the startup listing names: a program and its command, the
/// second and third of at least three fields between commas.
pub open spec fn startup_row_of(line: Seq<char>) -> Option<(Seq<char>, Seq<char>)> {
    let f = split_on(line, ',');
    if f.len() >= 3 {
        Some((f[1], f[2]))
    } else {
        None
    }
}

/// A startup item as a row of the listing.
pub open spec fn row_of_item(item: StartupItem) -> (Seq<char>, Seq<char>) {
    (item.name@, item.path@)
}

/// The rows of a startup listing: what the lines after the two lines of
/// heading name, the lines that name nothing left out.
pub open spec fn startup_rows_of(listing: Seq<char>) -> Seq<(Seq<char>, Seq<char>)> {
    after_headings(lines_of(listing), 2).filter_map(|line: Seq<char>| startup_row_of(line))
}

impl StartupAnalyzer {
    /// The startup item that a line of the startup listing names.
    pub fn parse_startup_line(&self, line: &Vec<char>) -> (parsed: Option<StartupItem>)
        ensures
            parsed is Some <==> startup_row_of(line@) is Some,
            parsed matches Some(item) ==> {
                &&& startup_row_of(line@) == Some(row_of_item(item))
                &&& item.estimated_delay_ms == ASSUMED_DELAY_MS
                &&& item.can_disable
            },
    {
        let f = split_chars(line, ',');
        if f.len() < 3 {
            return None;
        }
        Some(
            StartupItem {
                name: string_of(&f[1]),
                path: string_of(&f[2]),
                estimated_delay_ms: ASSUMED_DELAY_MS,
                can_disable: true,
            },
        )
    }

    /// The startup items of a startup listing, in the order listed. The
    /// first two lines are headings.
    pub fn items_from_listing(&self, listing: &str) -> (items: Vec<StartupItem>)
        ensures
            items@.map_values(|item: StartupItem| row_of_item(item)) == startup_rows_of(listing@),
            forall|k: int|
                0 <= k < items@.len() ==> (#[trigger] items@[k]).estimated_delay_ms
                    == ASSUMED_DELAY_MS && items@[k].can_disable,
    {
        let all = lines(listing);
        let ghost texts = lines_of(listing@);
        let ghost read = |line: Seq<char>| startup_row_of(line);
        let ghost model = |item: StartupItem| row_of_item(item);
        let mut items: Vec<StartupItem> = Vec::new();
        if all.len() <= 2 {
            assert(items@.map_values(model) =~= after_headings(texts, 2).filter_map(read));
            return items;
        }
        let mut i: usize = 2;
        assert(texts.subrange(2, 2) =~= Seq::<Seq<char>>::empty());
        assert(items@.map_values(model) =~= texts.subrange(2, 2).filter_map(read));
        while i < all.len()
            invariant
                2 <= i <= all@.len(),
                all@.len() == texts.len(),
                forall|k: int| 0 <= k < all@.len() ==> (#[trigger] all@[k])@ == texts[k],
                read == |line: Seq<char>| startup_row_of(line),
                model == |item: StartupItem| row_of_item(item),
                items@.map_values(model) == texts.subrange(2, i as int).filter_map(read),
                forall|k: int|
                    0 <= k < items@.len() ==> (#[trigger] items@[k]).estimated_delay_ms
                        == ASSUMED_DELAY_MS && items@[k].can_disable,
            decreases all@.len() - i,
        {
            let ghost seen = texts.subrange(2, i as int);
            let ghost next = texts.subrange(2, i + 1);
            assert(next.drop_last() =~= seen);
            assert(next.last() == texts[i as int]);
            let ghost before = items@;
            match self.parse_startup_line(&all[i]) {
                Some(item) => {
                    items.push(item);
                    assert(items@.map_values(model) =~= before.map_values(model).push(
                        row_of_item(item),
                    ));
                    assert(next.filter_map(read) =~= seen.filter_map(read) + seq![
                        row_of_item(item),
                    ]);
                },
                None => {
                    assert(next.filter_map(read) =~= seen.filter_map(read));
                },
            }
            i = i + 1;
        }
        assert(texts.subrange(2, texts.len() as int) =~= after_headings(texts, 2));
        items
    }

    /// Identifies the checker.
    pub fn name(&self) -> (name: &'static str)
        ensures
            name@ == "startup_analyzer"@,
    {
        "startup_analyzer"
    }

    /// The aspect of the machine that the checker looks at.
    pub fn category(&self) -> (category: CheckCategory)
        ensures
            category == CheckCategory::Performance,
    {
        CheckCategory::Performance
    }

    /// Whether the analyzer looks at the startup programs at all: a scan that
    /// excludes them skips it.
    pub fn applies(&self, context: &ScanContext) -> (applies: bool)
        ensures
            applies == !context.options.exclude_startup,
    {
        !context.options.exclude_startup
    }

    /// The issue about there being too many startup programs: one where
    /// there are more than fifteen, none otherwise.
    pub fn excess_issue(&self, count: usize, params: serde_json::Value) -> (found: Option<Issue>)
        ensures
            found is Some <==> count > MANY_STARTUP_ITEMS,
            found matches Some(issue) ==> is_excess_issue(count as nat, params, issue),
    {
        if count <= MANY_STARTUP_ITEMS {
            return None;
        }
        let number = decimal_string(count as u64);
        let mut title = decimal_string(count as u64);
        title.append(" apps slow your boot");
        let mut description = "You have ".to_owned();
        description.append(number.as_str());
        description.append(
            " programs starting with Windows. Each adds 0.5-2 seconds to boot time. Consider disabling unnecessary ones.",
        );
        Some(
            Issue {
                id: "excessive_startup_items".to_owned(),
                severity: IssueSeverity::Warning,
                title,
                description,
                impact_category: ImpactCategory::Performance,
                fix: Some(
                    FixAction {
                        action_id: "optimize_startup".to_owned(),
                        label: "Optimize Startup".to_owned(),
                        is_auto_fix: false,
                        params,
                    },
                ),
            },
        )
    }

    /// The issue about one startup program: one where the program is known
    /// bloatware, none otherwise.
    pub fn bloatware_issue(&self, item: &StartupItem, params: serde_json::Value) -> (found: Option<
        Issue,
    >)
        ensures
            found is Some <==> names_bloatware(lowercase_of(item.name@)),
            found matches Some(issue) ==> is_bloatware_issue(item.name@, params, issue),
    {
        let lowered = to_lowercase(item.name.as_str());
        if !bloatware_named(lowered.as_str()) {
            return None;
        }
        let chars = chars_of(lowered.as_str());
        let mut blank: Vec<char> = Vec::new();
        blank.push(' ');
        assert(blank@ =~= seq![' ']);
        let joined = string_of(&replace_each(&chars, &blank, Some('_')));
        let mut id = "bloatware_startup_".to_owned();
        id.append(joined.as_str());
        let mut title = item.name.clone();
        title.append(" is known bloatware");
        let mut action_id = "disable_startup_".to_owned();
        action_id.append(item.name.as_str());
        Some(
            Issue {
                id,
                severity: IssueSeverity::Info,
                title,
                description: "This program is known to slow down your computer without providing much value.".to_owned(),
                impact_category: ImpactCategory::Performance,
                fix: Some(
                    FixAction { action_id, label: "Disable".to_owned(), is_auto_fix: true, params },
                ),
            },
        )
    }
}

} // verus!
