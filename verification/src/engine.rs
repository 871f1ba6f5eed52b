//! The checker capability and the engine that runs scans and dispatches
//! fixes.

use vstd::prelude::*;
use vstd::string::StringExecFns;
use crate::clock::{epoch_seconds, epoch_seconds_spec, stopwatch_elapsed_ms, stopwatch_start, unix_now};
use crate::scoring::{default_table, scores_of, ScoringEngine};
use crate::types::{
    CheckCategory, FixResult, FixResultView, Issue, IssueSeverity, ScanContext, ScanDetails,
    ScanOptions, ScanResult,
};

verus! {

/// Why a checker did not carry out a fix.
#[derive(Debug, Clone)]
pub enum FixError {
    /// The action belongs to another checker, or to none.
    NotApplicable,
    /// The action belongs to this checker and the remediation failed.
    Failed(String),
}

/// A pluggable probe. The engine runs the probes of the categories that a
/// scan asks for and hands each fix to the probe that owns it.
///
/// What a probe reports depends on the machine. Each probe says in three
/// relations what it may give as its category, report in a run and answer to
/// a fix; a probe that says nothing may give anything. The engine states
/// over these relations what it asked of which probe and what it made of
/// the answers.
pub trait Checker: Send + Sync {
    /// `category` can be what the checker gives as its category.
    open spec fn may_be_of(&self, category: CheckCategory) -> bool {
        true
    }

    /// `issues` can be what the checker reports when it is run with
    /// `context`.
    open spec fn may_report(&self, context: ScanContext, issues: Seq<Issue>) -> bool {
        true
    }

    /// `outcome` can be what the checker answers when it is asked for the
    /// remediation `action_id` with `params`.
    open spec fn may_answer(
        &self,
        action_id: Seq<char>,
        params: serde_json::Value,
        outcome: Result<FixResult, FixError>,
    ) -> bool {
        true
    }

    /// Identifies the checker.
    fn name(&self) -> &'static str;

    /// The aspect of the machine that the checker looks at. The engine asks
    /// for it once, when the checker is registered.
    fn category(&self) -> (category: CheckCategory)
        ensures
            self.may_be_of(category),
    ;

    /// Probes the machine and reports what is wrong. A checker that the
    /// advisory options exclude, or that fails inside, reports nothing.
    fn run(&self, context: &ScanContext) -> (issues: Vec<Issue>)
        ensures
            self.may_report(*context, issues@),
    ;

    /// Attempts the remediation named by `action_id`. A checker that does not
    /// own the action answers `NotApplicable`, and only such a checker does;
    /// a checker without remediations answers so to every action.
    fn fix(&self, action_id: &str, params: &serde_json::Value) -> (outcome: Result<
        FixResult,
        FixError,
    >)
        ensures
            self.may_answer(action_id@, *params, outcome),
    ;
}

/// Whether a scan with these options runs the checkers of a category:
/// security and performance checkers on their flag, all others always.
pub open spec fn should_run_spec(category: CheckCategory, options: ScanOptions) -> bool {
    match category {
        CheckCategory::Security => options.security,
        CheckCategory::Performance => options.performance,
        _ => true,
    }
}

/// Whether a scan with these options runs the checkers of a category.
pub fn should_run(category: CheckCategory, options: &ScanOptions) -> (run: bool)
    ensures
        run == should_run_spec(category, *options),
{
    match category {
        CheckCategory::Security => options.security,
        CheckCategory::Performance => options.performance,
        _ => true,
    }
}

/// The test for issues of one severity.
pub open spec fn has_severity(severity: IssueSeverity) -> spec_fn(Issue) -> bool {
    |issue: Issue| issue.severity == severity
}

/// The issues of one severity, in the order in which they stand in `issues`.
pub open spec fn of_severity(issues: Seq<Issue>, severity: IssueSeverity) -> Seq<Issue> {
    issues.filter(has_severity(severity))
}

/// The issues in scan order: the critical ones, then the warnings, then the
/// informational ones, each group in the order found.
pub open spec fn ordered_by_severity(issues: Seq<Issue>) -> Seq<Issue> {
    of_severity(issues, IssueSeverity::Critical) + of_severity(issues, IssueSeverity::Warning)
        + of_severity(issues, IssueSeverity::Info)
}

proof fn lemma_of_severity_push(issues: Seq<Issue>, issue: Issue, severity: IssueSeverity)
    ensures
        of_severity(issues.push(issue), severity) == if issue.severity == severity {
            of_severity(issues, severity).push(issue)
        } else {
            of_severity(issues, severity)
        },
{
    reveal(Seq::filter);
    assert(issues.push(issue).drop_last() =~= issues);
}

proof fn lemma_of_severity_members(issues: Seq<Issue>, severity: IssueSeverity)
    ensures
        forall|i: int|
            0 <= i < of_severity(issues, severity).len() ==> (#[trigger] of_severity(
                issues,
                severity,
            )[i]).severity == severity,
    decreases issues.len(),
{
    reveal(Seq::filter);
    if issues.len() > 0 {
        lemma_of_severity_members(issues.drop_last(), severity);
    }
}

proof fn lemma_of_severity_of_group(group: Seq<Issue>, group_severity: IssueSeverity, severity: IssueSeverity)
    requires
        forall|i: int| 0 <= i < group.len() ==> (#[trigger] group[i]).severity == group_severity,
    ensures
        of_severity(group, severity) == if severity == group_severity {
            group
        } else {
            Seq::<Issue>::empty()
        },
    decreases group.len(),
{
    reveal(Seq::filter);
    if group.len() > 0 {
        lemma_of_severity_of_group(group.drop_last(), group_severity, severity);
        assert(group.drop_last().push(group.last()) =~= group);
    }
}

/// Scan order is non-decreasing in severity rank.
pub proof fn lemma_order_is_sorted(issues: Seq<Issue>)
    ensures
        forall|i: int, j: int|
            0 <= i <= j < ordered_by_severity(issues).len() ==> (#[trigger] ordered_by_severity(
                issues,
            )[i]).severity.rank_spec() <= (#[trigger] ordered_by_severity(
                issues,
            )[j]).severity.rank_spec(),
{
    lemma_of_severity_members(issues, IssueSeverity::Critical);
    lemma_of_severity_members(issues, IssueSeverity::Warning);
    lemma_of_severity_members(issues, IssueSeverity::Info);
}

/// Scan order is stable: the issues of any one severity stand in scan order
/// exactly as they stood before, none lost, none added, none moved past
/// another of the same severity.
pub proof fn lemma_order_is_stable(issues: Seq<Issue>, severity: IssueSeverity)
    ensures
        of_severity(ordered_by_severity(issues), severity) == of_severity(issues, severity),
{
    let critical = of_severity(issues, IssueSeverity::Critical);
    let warning = of_severity(issues, IssueSeverity::Warning);
    let info = of_severity(issues, IssueSeverity::Info);
    lemma_of_severity_members(issues, IssueSeverity::Critical);
    lemma_of_severity_members(issues, IssueSeverity::Warning);
    lemma_of_severity_members(issues, IssueSeverity::Info);
    lemma_of_severity_of_group(critical, IssueSeverity::Critical, severity);
    lemma_of_severity_of_group(warning, IssueSeverity::Warning, severity);
    lemma_of_severity_of_group(info, IssueSeverity::Info, severity);
    Seq::filter_distributes_over_add(critical, warning, has_severity(severity));
    Seq::filter_distributes_over_add(critical + warning, info, has_severity(severity));
    assert(of_severity(ordered_by_severity(issues), severity) =~= of_severity(issues, severity));
}

/// Scan order holds the same issues, each as often as before.
pub proof fn lemma_order_keeps_issues(issues: Seq<Issue>)
    ensures
        ordered_by_severity(issues).to_multiset() == issues.to_multiset(),
        ordered_by_severity(issues).len() == issues.len(),
    decreases issues.len(),
{
    broadcast use vstd::seq_lib::group_to_multiset_ensures;

    let critical = of_severity(issues, IssueSeverity::Critical);
    let warning = of_severity(issues, IssueSeverity::Warning);
    let info = of_severity(issues, IssueSeverity::Info);
    vstd::seq_lib::lemma_multiset_commutative(critical, warning);
    vstd::seq_lib::lemma_multiset_commutative(critical + warning, info);
    if issues.len() == 0 {
        reveal(Seq::filter);
        assert(ordered_by_severity(issues) =~= issues);
    } else {
        let rest = issues.drop_last();
        let last = issues.last();
        lemma_order_keeps_issues(rest);
        assert(rest.push(last) =~= issues);
        lemma_of_severity_push(rest, last, IssueSeverity::Critical);
        lemma_of_severity_push(rest, last, IssueSeverity::Warning);
        lemma_of_severity_push(rest, last, IssueSeverity::Info);
        let rest_critical = of_severity(rest, IssueSeverity::Critical);
        let rest_warning = of_severity(rest, IssueSeverity::Warning);
        let rest_info = of_severity(rest, IssueSeverity::Info);
        vstd::seq_lib::lemma_multiset_commutative(rest_critical, rest_warning);
        vstd::seq_lib::lemma_multiset_commutative(rest_critical + rest_warning, rest_info);
        assert(ordered_by_severity(issues).to_multiset() =~= ordered_by_severity(
            rest,
        ).to_multiset().insert(last));
        assert(issues.to_multiset() =~= rest.to_multiset().insert(last));
    }
}

/// Puts issues in scan order.
pub fn order_by_severity(issues: Vec<Issue>) -> (ordered: Vec<Issue>)
    ensures
        ordered@ == ordered_by_severity(issues@),
{
    let ghost all = issues@;
    let mut critical: Vec<Issue> = Vec::new();
    let mut warning: Vec<Issue> = Vec::new();
    let mut info: Vec<Issue> = Vec::new();
    proof {
        reveal(Seq::filter);
        assert(all.take(0) =~= Seq::<Issue>::empty());
    }
    for issue in it: issues
        invariant
            it.seq() == all,
            critical@ == of_severity(all.take(it.index() as int), IssueSeverity::Critical),
            warning@ == of_severity(all.take(it.index() as int), IssueSeverity::Warning),
            info@ == of_severity(all.take(it.index() as int), IssueSeverity::Info),
    {
        proof {
            let seen = all.take(it.index() as int);
            assert(all.take(it.index() + 1) =~= seen.push(issue));
            lemma_of_severity_push(seen, issue, IssueSeverity::Critical);
            lemma_of_severity_push(seen, issue, IssueSeverity::Warning);
            lemma_of_severity_push(seen, issue, IssueSeverity::Info);
        }
        match issue.severity {
            IssueSeverity::Critical => critical.push(issue),
            IssueSeverity::Warning => warning.push(issue),
            IssueSeverity::Info => info.push(issue),
        }
    }
    assert(all.take(all.len() as int) =~= all);
    critical.append(&mut warning);
    critical.append(&mut info);
    critical
}

/// The reports of the checkers, one after the other.
pub open spec fn joined(parts: Seq<Seq<Issue>>) -> Seq<Issue>
    decreases parts.len(),
{
    if parts.len() == 0 {
        Seq::empty()
    } else {
        joined(parts.drop_last()) + parts.last()
    }
}

/// `parts` can be what the checkers of these categories added to a scan with
/// these options, in the order of registration: one part for each checker,
/// which is empty where the scan leaves out the category of the checker.
pub open spec fn scan_gathers(
    categories: Seq<CheckCategory>,
    options: ScanOptions,
    parts: Seq<Seq<Issue>>,
) -> bool {
    &&& parts.len() == categories.len()
    &&& forall|i: int|
        0 <= i < categories.len() && !should_run_spec(#[trigger] categories[i], options)
            ==> parts[i].len() == 0
}

/// `issues` can be the issues of a scan over checkers of these categories:
/// what the checkers that the options ask for reported, in scan order.
pub open spec fn may_scan_to(
    categories: Seq<CheckCategory>,
    options: ScanOptions,
    issues: Seq<Issue>,
) -> bool {
    exists|parts: Seq<Seq<Issue>>| #[trigger]
        scan_gathers(categories, options, parts) && issues == ordered_by_severity(joined(parts))
}

/// The message of the failure that stands for "no checker owns the action".
pub open spec fn no_handler_message(action_id: Seq<char>) -> Seq<char> {
    "No handler found for action: "@ + action_id
}

/// `result` is what the engine makes of the owning checker's answer: a
/// success or failure that the checker reported is handed on as it is, and a
/// failed remediation becomes a failure that carries the reason.
pub open spec fn concludes(outcome: Result<FixResult, FixError>, result: FixResult) -> bool {
    match outcome {
        Ok(reported) => result == reported,
        Err(FixError::Failed(reason)) => result@ == FixResultView::plain(false, reason@),
        Err(FixError::NotApplicable) => false,
    }
}

/// The answer says that the action is not the checker's own.
pub open spec fn declines(outcome: Result<FixResult, FixError>) -> bool {
    outcome matches Err(FixError::NotApplicable)
}

/// `result` is what the dispatch of a fix over this many checkers comes to,
/// given the answers of the checkers that were asked, in the order of
/// registration. Every answer but the last declines. If the last one does
/// not, it decides and no further checker is asked; if all decline, every
/// checker was asked and the result is the failure that says that no checker
/// owns the action.
pub open spec fn dispatch_of(
    checkers: nat,
    answers: Seq<Result<FixResult, FixError>>,
    action_id: Seq<char>,
    result: FixResult,
) -> bool {
    &&& answers.len() <= checkers
    &&& forall|i: int| 0 <= i < answers.len() - 1 ==> declines(#[trigger] answers[i])
    &&& if answers.len() > 0 && !declines(answers.last()) {
        concludes(answers.last(), result)
    } else {
        &&& answers.len() == checkers
        &&& result@ == FixResultView::plain(false, no_handler_message(action_id))
    }
}

/// `result` can be what the dispatch of a fix over this many checkers
/// returns.
pub open spec fn may_dispatch_to(checkers: nat, action_id: Seq<char>, result: FixResult) -> bool {
    exists|answers: Seq<Result<FixResult, FixError>>| #[trigger]
        dispatch_of(checkers, answers, action_id, result)
}

/// Where there are no checkers, the dispatch of a fix comes to the failure
/// that says that no checker owns the action, and a scan to no issues.
pub proof fn lemma_empty_engine(options: ScanOptions, issues: Seq<Issue>, action_id: Seq<char>, result: FixResult)
    ensures
        may_scan_to(Seq::empty(), options, issues) ==> issues.len() == 0,
        may_dispatch_to(0, action_id, result) ==> result@ == FixResultView::plain(
            false,
            no_handler_message(action_id),
        ),
{
    if may_scan_to(Seq::empty(), options, issues) {
        lemma_excluded_scan_is_empty(Seq::empty(), options, issues);
    }
}

/// The checkers of a scan that leaves out every one of their categories add
/// nothing.
pub proof fn lemma_excluded_contribute_nothing(
    categories: Seq<CheckCategory>,
    options: ScanOptions,
    parts: Seq<Seq<Issue>>,
)
    requires
        scan_gathers(categories, options, parts),
        forall|i: int|
            0 <= i < categories.len() ==> !should_run_spec(#[trigger] categories[i], options),
    ensures
        joined(parts).len() == 0,
        ordered_by_severity(joined(parts)).len() == 0,
    decreases categories.len(),
{
    if categories.len() > 0 {
        assert forall|i: int| 0 <= i < categories.len() - 1 implies !should_run_spec(
            #[trigger] categories.drop_last()[i],
            options,
        ) by {
            assert(categories.drop_last()[i] == categories[i]);
        }
        lemma_excluded_contribute_nothing(categories.drop_last(), options, parts.drop_last());
        assert(!should_run_spec(categories[categories.len() - 1], options));
    }
    lemma_order_keeps_issues(joined(parts));
}

/// A scan that leaves out the category of every registered checker has no
/// issues, whatever the checkers would report: with performance switched
/// off, checkers of the performance category alone yield nothing.
pub proof fn lemma_excluded_scan_is_empty(
    categories: Seq<CheckCategory>,
    options: ScanOptions,
    issues: Seq<Issue>,
)
    requires
        may_scan_to(categories, options, issues),
        forall|i: int|
            0 <= i < categories.len() ==> !should_run_spec(#[trigger] categories[i], options),
    ensures
        issues.len() == 0,
{
    let parts = choose|parts: Seq<Seq<Issue>>| #[trigger]
        scan_gathers(categories, options, parts) && issues == ordered_by_severity(joined(parts));
    lemma_excluded_contribute_nothing(categories, options, parts);
}

/// A scan that leaves out a category has no issues from the checkers of
/// that category, whatever they would report: the part of a checker is empty
/// where the options switch off security and it is a `Security` checker, and
/// where they switch off performance and it is a `Performance` checker.
pub proof fn lemma_disabled_category_is_silent(
    categories: Seq<CheckCategory>,
    options: ScanOptions,
    parts: Seq<Seq<Issue>>,
    i: int,
)
    requires
        scan_gathers(categories, options, parts),
        0 <= i < categories.len(),
    ensures
        !options.performance && categories[i] == CheckCategory::Performance ==> parts[i].len() == 0,
        !options.security && categories[i] == CheckCategory::Security ==> parts[i].len() == 0,
{
}

/// Where every checker that was asked declines, all were asked and the
/// dispatch comes to the failure that says that no checker owns the action.
pub proof fn lemma_all_decline(
    checkers: nat,
    answers: Seq<Result<FixResult, FixError>>,
    action_id: Seq<char>,
    result: FixResult,
)
    requires
        dispatch_of(checkers, answers, action_id, result),
        forall|i: int| 0 <= i < answers.len() ==> declines(#[trigger] answers[i]),
    ensures
        answers.len() == checkers,
        !result.success,
        result@ == FixResultView::plain(false, no_handler_message(action_id)),
{
}

/// A checker that does not decline ends the dispatch: its answer decides,
/// and a failed remediation comes out as a failure with its reason, never as
/// the failure that says that no checker owns the action.
pub proof fn lemma_owner_decides(
    checkers: nat,
    answers: Seq<Result<FixResult, FixError>>,
    action_id: Seq<char>,
    result: FixResult,
)
    requires
        dispatch_of(checkers, answers, action_id, result),
        answers.len() > 0,
        !declines(answers.last()),
    ensures
        concludes(answers.last(), result),
        answers.last() matches Err(FixError::Failed(reason)) ==> !result.success && result.message@
            == reason@,
        answers.last() matches Ok(reported) ==> result == reported,
{
}

/// What the engine makes of one checker's answer: `None` where the checker
/// does not own the action and the search goes on, else the result to return.
pub fn conclude_fix(outcome: Result<FixResult, FixError>) -> (result: Option<FixResult>)
    ensures
        result is None <==> declines(outcome),
        result matches Some(r) ==> concludes(outcome, r),
{
    match outcome {
        Ok(reported) => Some(reported),
        Err(FixError::Failed(reason)) => Some(FixResult::failure(reason.as_str())),
        Err(FixError::NotApplicable) => None,
    }
}

/// The failure that stands for "no checker owns the action".
pub fn no_handler(action_id: &str) -> (result: FixResult)
    ensures
        result@ == FixResultView::plain(false, no_handler_message(action_id@)),
{
    let mut message = "No handler found for action: ".to_owned();
    message.append(action_id);
    FixResult::failure(message.as_str())
}

/// `uuid::Uuid::new_v4().to_string()`: a fresh random identifier in the
/// hyphenated form, which is 36 characters long. The value differs from call
/// to call. The call panics where the system has no random bytes to give.
#[verifier::external_body]
fn new_scan_id() -> (id: String)
    ensures
        id@.len() == 36,
{
    uuid::Uuid::new_v4().to_string()
}

/// The categories of a list of registered checkers, each of which stands
/// with the category that it gave when it was registered.
spec fn categories_of(entries: Seq<(CheckCategory, Box<dyn Checker>)>) -> Seq<CheckCategory> {
    entries.map_values(|entry: (CheckCategory, Box<dyn Checker>)| entry.0)
}

proof fn lemma_categories_push(
    entries: Seq<(CheckCategory, Box<dyn Checker>)>,
    entry: (CheckCategory, Box<dyn Checker>),
)
    ensures
        entries.push(entry).len() == entries.len() + 1,
        categories_of(entries).len() == entries.len(),
        entries.push(entry)[entries.len() as int] == entry,
        forall|i: int| 0 <= i < entries.len() ==> #[trigger] entries.push(entry)[i] == entries[i],
        categories_of(entries.push(entry)) == categories_of(entries).push(entry.0),
{
    assert(categories_of(entries.push(entry)) =~= categories_of(entries).push(entry.0));
}

/// Runs the registered checkers and computes scores.
pub struct ScannerEngine {
    checkers: Vec<(CheckCategory, Box<dyn Checker>)>,
    scoring_engine: ScoringEngine,
}

impl ScannerEngine {
    /// The categories of the registered checkers, in the order of
    /// registration. A checker is asked for its category once, when it is
    /// registered.
    pub closed spec fn categories(&self) -> Seq<CheckCategory> {
        categories_of(self.checkers@)
    }

    /// The number of registered checkers.
    pub open spec fn checkers(&self) -> nat {
        self.categories().len()
    }

    /// `issues` can be what the checker at place `i` reports when it is run
    /// with `context`. Places count from zero in the order of registration.
    pub closed spec fn reports_at(&self, i: int, context: ScanContext, issues: Seq<Issue>) -> bool {
        self.checkers@[i].1.may_report(context, issues)
    }

    /// `outcome` can be what the checker at place `i` answers when it is
    /// asked for the remediation `action_id` with `params`.
    pub closed spec fn answers_at(
        &self,
        i: int,
        action_id: Seq<char>,
        params: serde_json::Value,
        outcome: Result<FixResult, FixError>,
    ) -> bool {
        self.checkers@[i].1.may_answer(action_id, params, outcome)
    }

    /// `parts` can be what the checkers added to a scan with these options:
    /// one part for each checker, which is empty where the scan leaves out
    /// the category of the checker and else is what that checker reported
    /// when it was run with the options as its context.
    pub open spec fn gathers(&self, options: ScanOptions, parts: Seq<Seq<Issue>>) -> bool {
        &&& scan_gathers(self.categories(), options, parts)
        &&& forall|k: int|
            0 <= k < self.categories().len() && should_run_spec(
                #[trigger] self.categories()[k],
                options,
            ) ==> self.reports_at(k, (ScanContext { options }), parts[k])
    }

    /// `issues` can be the issues of a scan with these options: what the
    /// checkers that the options ask for reported, in scan order.
    pub open spec fn scans_to(&self, options: ScanOptions, issues: Seq<Issue>) -> bool {
        exists|parts: Seq<Seq<Issue>>| #[trigger]
            self.gathers(options, parts) && issues == ordered_by_severity(joined(parts))
    }

    /// `result` is what the dispatch of a fix comes to, given the answers of
    /// the checkers that were asked: the checkers were asked in the order of
    /// registration, each for this action with these parameters, and the
    /// result is made of their answers as `dispatch_of` says.
    pub open spec fn dispatches(
        &self,
        answers: Seq<Result<FixResult, FixError>>,
        action_id: Seq<char>,
        params: serde_json::Value,
        result: FixResult,
    ) -> bool {
        &&& dispatch_of(self.checkers(), answers, action_id, result)
        &&& forall|k: int|
            0 <= k < answers.len() ==> self.answers_at(k, action_id, params, #[trigger] answers[k])
    }

    /// `result` can be what the dispatch of a fix returns.
    pub open spec fn dispatches_to(
        &self,
        action_id: Seq<char>,
        params: serde_json::Value,
        result: FixResult,
    ) -> bool {
        exists|answers: Seq<Result<FixResult, FixError>>| #[trigger]
            self.dispatches(answers, action_id, params, result)
    }

    /// The weight table that scores are computed under.
    pub closed spec fn weights(&self) -> Map<Seq<char>, nat> {
        self.scoring_engine@
    }

    /// An engine with no checkers and the default weights.
    pub fn new() -> (engine: Self)
        ensures
            engine.categories() == Seq::<CheckCategory>::empty(),
            engine.weights() == default_table(),
    {
        let engine = ScannerEngine { checkers: Vec::new(), scoring_engine: ScoringEngine::default() };
        assert(engine.categories() =~= Seq::<CheckCategory>::empty());
        engine
    }

    /// Adds a checker behind those registered so far, under the category
    /// that it gives. The checkers registered before keep their places.
    pub fn register(&mut self, checker: Box<dyn Checker>)
        ensures
            final(self).categories().len() == old(self).categories().len() + 1,
            final(self).categories().drop_last() == old(self).categories(),
            checker.may_be_of(final(self).categories().last()),
            forall|context: ScanContext, issues: Seq<Issue>| #[trigger]
                final(self).reports_at(old(self).categories().len() as int, context, issues)
                    == checker.may_report(context, issues),
            forall|action_id: Seq<char>, params: serde_json::Value, outcome: Result<FixResult, FixError>| #[trigger]
                final(self).answers_at(
                    old(self).categories().len() as int,
                    action_id,
                    params,
                    outcome,
                ) == checker.may_answer(action_id, params, outcome),
            forall|i: int, context: ScanContext, issues: Seq<Issue>|
                0 <= i < old(self).categories().len() ==> #[trigger] final(self).reports_at(
                    i,
                    context,
                    issues,
                ) == old(self).reports_at(i, context, issues),
            forall|i: int, action_id: Seq<char>, params: serde_json::Value, outcome: Result<FixResult, FixError>|
                0 <= i < old(self).categories().len() ==> #[trigger] final(self).answers_at(
                    i,
                    action_id,
                    params,
                    outcome,
                ) == old(self).answers_at(i, action_id, params, outcome),
            final(self).weights() == old(self).weights(),
    {
        let category = checker.category();
        let ghost before = self.checkers@;
        let added = (category, checker);
        let ghost entry = added;
        self.checkers.push(added);
        proof {
            lemma_categories_push(before, entry);
            assert(self.categories().drop_last() =~= old(self).categories());
        }
    }

    /// The number of registered checkers.
    pub fn checker_count(&self) -> (n: usize)
        ensures
            n == self.checkers(),
    {
        self.checkers.len()
    }

    /// The categories of the registered checkers, in the order of
    /// registration.
    pub fn checker_categories(&self) -> (categories: Vec<CheckCategory>)
        ensures
            categories@ == self.categories(),
    {
        let mut categories: Vec<CheckCategory> = Vec::new();
        let mut i: usize = 0;
        while i < self.checkers.len()
            invariant
                i <= self.checkers@.len(),
                categories@ == self.categories().take(i as int),
            decreases self.checkers@.len() - i,
        {
            categories.push(self.checkers[i].0);
            assert(categories@ =~= self.categories().take(i + 1));
            i = i + 1;
        }
        assert(self.categories().take(self.checkers@.len() as int) =~= self.categories());
        categories
    }

    /// Builds the result of a scan from what was gathered: the issues in scan
    /// order, their scores, and details that say nothing was measured.
    pub fn assemble_result(
        &self,
        scan_id: String,
        now: i64,
        duration_ms: u64,
        found: Vec<Issue>,
    ) -> (result: ScanResult)
        ensures
            result.scan_id == scan_id,
            result.timestamp == epoch_seconds_spec(now),
            result.duration_ms == duration_ms,
            result.issues@ == ordered_by_severity(found@),
            result.scores == scores_of(self.weights(), result.issues@),
            result.scores.in_range(),
            result.details.is_unknown(),
    {
        let issues = order_by_severity(found);
        let scores = self.scoring_engine.calculate_scores(issues.as_slice());
        ScanResult {
            scan_id,
            timestamp: epoch_seconds(now),
            duration_ms,
            scores,
            issues,
            details: ScanDetails::unknown(),
        }
    }

    /// Runs one scan: the checkers whose category the options ask for are
    /// run, in the order of registration, with the options as their
    /// context. What they report is put in scan order and scored. The scan
    /// is stamped with the reading of the system clock at its start.
    pub fn scan(&self, options: ScanOptions) -> (result: ScanResult)
        ensures
            self.scans_to(options, result.issues@),
            may_scan_to(self.categories(), options, result.issues@),
            result.scores == scores_of(self.weights(), result.issues@),
            result.scores.in_range(),
            result.details.is_unknown(),
            result.scan_id@.len() == 36,
            exists|now: i64|
                -0x1_0000_0000_0000 < now < 0x1_0000_0000_0000 && result.timestamp
                    == #[trigger] epoch_seconds_spec(now),
    {
        let scan_id = new_scan_id();
        let started = stopwatch_start();
        let now = unix_now();
        let context = ScanContext { options };
        let mut found: Vec<Issue> = Vec::new();
        let ghost mut parts: Seq<Seq<Issue>> = Seq::empty();
        let mut i: usize = 0;
        while i < self.checkers.len()
            invariant
                i <= self.checkers@.len(),
                self.checkers@.len() == self.categories().len(),
                context == (ScanContext { options }),
                scan_gathers(self.categories().take(i as int), options, parts),
                forall|k: int|
                    0 <= k < i && should_run_spec(#[trigger] self.categories()[k], options)
                        ==> self.reports_at(k, context, parts[k]),
                found@ == joined(parts),
            decreases self.checkers@.len() - i,
        {
            let entry = &self.checkers[i];
            let ghost parts_before = parts;
            if should_run(entry.0, &options) {
                let mut issues = entry.1.run(&context);
                proof {
                    parts = parts.push(issues@);
                    assert(parts[i as int] == issues@);
                    assert(self.reports_at(i as int, context, parts[i as int]));
                }
                found.append(&mut issues);
            } else {
                proof {
                    parts = parts.push(Seq::empty());
                }
            }
            assert(parts.drop_last() =~= parts_before);
            assert forall|k: int|
                0 <= k < i + 1 && !should_run_spec(
                    #[trigger] self.categories().take(i + 1)[k],
                    options,
                ) implies parts[k].len() == 0 by {
                if k < i {
                    assert(self.categories().take(i as int)[k] == self.categories()[k]);
                    assert(parts[k] == parts_before[k]);
                }
            }
            assert forall|k: int|
                0 <= k < i + 1 && should_run_spec(
                    #[trigger] self.categories()[k],
                    options,
                ) implies self.reports_at(k, context, parts[k]) by {
                if k < i {
                    assert(parts[k] == parts_before[k]);
                }
            }
            i = i + 1;
        }
        let mut result = self.assemble_result(scan_id, now, 0, found);
        result.duration_ms = stopwatch_elapsed_ms(&started);
        assert(self.categories().take(self.checkers@.len() as int) =~= self.categories());
        assert(self.gathers(options, parts));
        assert(result.timestamp == epoch_seconds_spec(now));
        result
    }

    /// Hands a fix to the checker that owns it. The checkers are asked in the
    /// order of registration, each for this action with these parameters;
    /// the first one that does not decline decides, whether its remediation
    /// succeeds or fails, and where all decline the result is a failure that
    /// says that no checker owns the action.
    pub fn fix_issue(&self, action_id: &str, params: &serde_json::Value) -> (result: FixResult)
        ensures
            self.dispatches_to(action_id@, *params, result),
            may_dispatch_to(self.checkers(), action_id@, result),
    {
        let ghost mut answers: Seq<Result<FixResult, FixError>> = Seq::empty();
        let mut i: usize = 0;
        while i < self.checkers.len()
            invariant
                i <= self.checkers@.len(),
                self.checkers@.len() == self.categories().len(),
                answers.len() == i,
                forall|k: int| 0 <= k < i ==> declines(#[trigger] answers[k]),
                forall|k: int|
                    0 <= k < i ==> self.answers_at(k, action_id@, *params, #[trigger] answers[k]),
            decreases self.checkers@.len() - i,
        {
            let outcome = self.checkers[i].1.fix(action_id, params);
            let ghost before = answers;
            proof {
                answers = answers.push(outcome);
                assert(answers[i as int] == outcome);
                assert(self.answers_at(i as int, action_id@, *params, outcome));
                assert forall|k: int| 0 <= k < i + 1 implies self.answers_at(
                    k,
                    action_id@,
                    *params,
                    #[trigger] answers[k],
                ) by {
                    if k < i {
                        assert(answers[k] == before[k]);
                    }
                }
            }
            match conclude_fix(outcome) {
                Some(result) => {
                    proof {
                        assert forall|k: int| 0 <= k < answers.len() - 1 implies declines(
                            #[trigger] answers[k],
                        ) by {
                            assert(answers[k] == before[k]);
                        }
                        assert(self.dispatches(answers, action_id@, *params, result));
                    }
                    return result;
                },
                None => {
                    assert forall|k: int| 0 <= k < i + 1 implies declines(#[trigger] answers[k]) by {
                        if k < i {
                            assert(answers[k] == before[k]);
                        }
                    }
                },
            }
            i = i + 1;
        }
        let result = no_handler(action_id);
        assert(self.dispatches(answers, action_id@, *params, result));
        result
    }
}


} // verus!
