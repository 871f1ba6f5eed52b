//! The scoring model: from a list of issues to a health and a speed score.
//!
//! All arithmetic is exact. A weight is a whole number of hundredths, so that
//! 100 stands for one and 150 for one and a half, and a loss is a whole
//! number of hundredths of a point.

use vstd::prelude::*;
use crate::types::{ImpactCategory, Issue, IssueSeverity, SystemScores};

verus! {

/// The weight of an issue whose identifier has no entry in the table: one.
pub const DEFAULT_WEIGHT: u32 = 100;

/// A perfect score, in hundredths of a point.
pub const FULL_SCORE: u64 = 10000;

/// Points that a security issue of weight one takes from the health score.
pub open spec fn security_penalty(severity: IssueSeverity) -> nat {
    match severity {
        IssueSeverity::Critical => 20,
        IssueSeverity::Warning => 10,
        IssueSeverity::Info => 2,
    }
}

/// Points that a performance issue of weight one takes from the speed score.
pub open spec fn performance_penalty(severity: IssueSeverity) -> nat {
    match severity {
        IssueSeverity::Critical => 25,
        IssueSeverity::Warning => 12,
        IssueSeverity::Info => 3,
    }
}

/// Points that an issue affecting both takes from each score, whatever its
/// severity.
pub open spec fn both_penalty() -> nat {
    15
}

/// What one issue takes from the health score, in hundredths of a point.
pub open spec fn health_loss(issue: Issue, weight: nat) -> nat {
    match issue.impact_category {
        ImpactCategory::Security => security_penalty(issue.severity) * weight,
        ImpactCategory::Both => both_penalty() * weight,
        ImpactCategory::Performance => 0,
        ImpactCategory::Privacy => 0,
    }
}

/// What one issue takes from the speed score, in hundredths of a point.
pub open spec fn speed_loss(issue: Issue, weight: nat) -> nat {
    match issue.impact_category {
        ImpactCategory::Performance => performance_penalty(issue.severity) * weight,
        ImpactCategory::Both => both_penalty() * weight,
        ImpactCategory::Security => 0,
        ImpactCategory::Privacy => 0,
    }
}

/// The weight that a table gives to an issue identifier.
pub open spec fn weight_in(table: Map<Seq<char>, nat>, issue_id: Seq<char>) -> nat {
    if table.contains_key(issue_id) {
        table[issue_id]
    } else {
        DEFAULT_WEIGHT as nat
    }
}

/// What all the issues together take from the health score.
pub open spec fn total_health_loss(table: Map<Seq<char>, nat>, issues: Seq<Issue>) -> nat
    decreases issues.len(),
{
    if issues.len() == 0 {
        0
    } else {
        total_health_loss(table, issues.drop_last()) + health_loss(
            issues.last(),
            weight_in(table, issues.last().id@),
        )
    }
}

/// What all the issues together take from the speed score.
pub open spec fn total_speed_loss(table: Map<Seq<char>, nat>, issues: Seq<Issue>) -> nat
    decreases issues.len(),
{
    if issues.len() == 0 {
        0
    } else {
        total_speed_loss(table, issues.drop_last()) + speed_loss(
            issues.last(),
            weight_in(table, issues.last().id@),
        )
    }
}

/// The score that is left after a loss: 100 points less the loss, not below
/// zero, with the fraction of a point cut off.
pub open spec fn score_after(loss: nat) -> nat {
    if loss >= FULL_SCORE as nat {
        0
    } else {
        ((FULL_SCORE as nat - loss) / 100) as nat
    }
}

/// The scores that a weight table gives to a list of issues.
pub open spec fn scores_of(table: Map<Seq<char>, nat>, issues: Seq<Issue>) -> SystemScores {
    SystemScores {
        health: score_after(total_health_loss(table, issues)) as u8,
        speed: score_after(total_speed_loss(table, issues)) as u8,
        health_delta: None,
        speed_delta: None,
    }
}

/// Without issues both scores are perfect.
pub proof fn lemma_no_issues_full_scores(table: Map<Seq<char>, nat>)
    ensures
        scores_of(table, Seq::empty()).health == 100,
        scores_of(table, Seq::empty()).speed == 100,
{
}

/// A single issue takes from the scores what it loses by itself.
pub proof fn lemma_single_issue(table: Map<Seq<char>, nat>, issue: Issue)
    ensures
        total_health_loss(table, seq![issue]) == health_loss(issue, weight_in(table, issue.id@)),
        total_speed_loss(table, seq![issue]) == speed_loss(issue, weight_in(table, issue.id@)),
{
    let one = seq![issue];
    assert(one.drop_last() =~= Seq::<Issue>::empty());
    assert(one.last() == issue);
    assert(total_health_loss(table, one.drop_last()) == 0);
    assert(total_speed_loss(table, one.drop_last()) == 0);
}

/// One critical security issue of weight one leaves a health of 80 and a
/// perfect speed.
pub proof fn lemma_critical_security_issue(table: Map<Seq<char>, nat>, issue: Issue)
    requires
        issue.severity == IssueSeverity::Critical,
        issue.impact_category == ImpactCategory::Security,
        weight_in(table, issue.id@) == 100,
    ensures
        scores_of(table, seq![issue]).health == 80,
        scores_of(table, seq![issue]).speed == 100,
{
    lemma_single_issue(table, issue);
}

/// One performance warning of weight one leaves a speed of 88 and a perfect
/// health.
pub proof fn lemma_warning_performance_issue(table: Map<Seq<char>, nat>, issue: Issue)
    requires
        issue.severity == IssueSeverity::Warning,
        issue.impact_category == ImpactCategory::Performance,
        weight_in(table, issue.id@) == 100,
    ensures
        scores_of(table, seq![issue]).speed == 88,
        scores_of(table, seq![issue]).health == 100,
{
    lemma_single_issue(table, issue);
}

/// A critical security issue and a performance warning, both of weight one,
/// leave a health of 80 and a speed of 88, in either order.
pub proof fn lemma_security_and_performance(
    table: Map<Seq<char>, nat>,
    security: Issue,
    performance: Issue,
)
    requires
        security.severity == IssueSeverity::Critical,
        security.impact_category == ImpactCategory::Security,
        weight_in(table, security.id@) == 100,
        performance.severity == IssueSeverity::Warning,
        performance.impact_category == ImpactCategory::Performance,
        weight_in(table, performance.id@) == 100,
    ensures
        scores_of(table, seq![security, performance]).health == 80,
        scores_of(table, seq![security, performance]).speed == 88,
        scores_of(table, seq![performance, security]).health == 80,
        scores_of(table, seq![performance, security]).speed == 88,
{
    lemma_single_issue(table, security);
    lemma_single_issue(table, performance);
    assert(seq![security, performance].drop_last() =~= seq![security]);
    assert(seq![performance, security].drop_last() =~= seq![performance]);
}

/// An issue that affects privacy alone changes neither score.
pub proof fn lemma_privacy_costs_nothing(table: Map<Seq<char>, nat>, issues: Seq<Issue>, issue: Issue)
    requires
        issue.impact_category == ImpactCategory::Privacy,
    ensures
        scores_of(table, issues.push(issue)) == scores_of(table, issues),
{
    assert(issues.push(issue).drop_last() =~= issues);
}

/// One entry of the weight table.
pub struct WeightRule {
    pub issue_id: String,
    /// In hundredths.
    pub weight: u32,
}

/// The table that a list of rules stands for. Where two rules name the same
/// identifier, the later one counts.
pub open spec fn table_of(rules: Seq<WeightRule>) -> Map<Seq<char>, nat>
    decreases rules.len(),
{
    if rules.len() == 0 {
        Map::empty()
    } else {
        table_of(rules.drop_last()).insert(rules.last().issue_id@, rules.last().weight as nat)
    }
}

/// Computes scores from issues under a table of weights.
pub struct ScoringEngine {
    rules: Vec<WeightRule>,
}

impl View for ScoringEngine {
    type V = Map<Seq<char>, nat>;

    /// The weight table: from issue identifier to weight in hundredths.
    closed spec fn view(&self) -> Map<Seq<char>, nat> {
        table_of(self.rules@)
    }
}

/// The weights that the engine starts with.
pub open spec fn default_table() -> Map<Seq<char>, nat> {
    Map::<Seq<char>, nat>::empty().insert("windows_update_pending"@, 150).insert(
        "firewall_disabled"@,
        200,
    ).insert("rdp_port_open"@, 200).insert("excessive_startup_items"@, 80)
}

impl Default for ScoringEngine {
    fn default() -> (engine: Self)
        ensures
            engine@ == default_table(),
    {
        let mut engine = ScoringEngine::new();
        engine.set_weight("windows_update_pending", 150);
        engine.set_weight("firewall_disabled", 200);
        engine.set_weight("rdp_port_open", 200);
        engine.set_weight("excessive_startup_items", 80);
        engine
    }
}

impl ScoringEngine {
    /// An engine under which every issue has weight one.
    pub fn new() -> (engine: Self)
        ensures
            engine@ == Map::<Seq<char>, nat>::empty(),
    {
        ScoringEngine { rules: Vec::new() }
    }

    /// Gives the issues with this identifier the weight `weight`, in
    /// hundredths.
    pub fn set_weight(&mut self, issue_id: &str, weight: u32)
        ensures
            final(self)@ == old(self)@.insert(issue_id@, weight as nat),
    {
        let ghost before = self.rules@;
        self.rules.push(WeightRule { issue_id: issue_id.to_owned(), weight });
        assert(self.rules@.drop_last() == before);
    }

    /// The weight of the issues with this identifier, in hundredths.
    pub fn weight(&self, issue_id: &str) -> (w: u32)
        ensures
            w as nat == weight_in(self@, issue_id@),
    {
        let wanted = issue_id.to_owned();
        self.weight_of(&wanted)
    }

    fn weight_of(&self, issue_id: &String) -> (w: u32)
        ensures
            w as nat == weight_in(self@, issue_id@),
    {
        let mut i: usize = self.rules.len();
        assert(self.rules@.take(i as int) == self.rules@);
        while i > 0
            invariant
                i <= self.rules@.len(),
                weight_in(table_of(self.rules@), issue_id@) == weight_in(
                    table_of(self.rules@.take(i as int)),
                    issue_id@,
                ),
            decreases i,
        {
            let ghost upto = self.rules@.take(i as int);
            assert(upto.drop_last() == self.rules@.take(i - 1));
            assert(upto.last() == self.rules@[i - 1]);
            i = i - 1;
            if self.rules[i].issue_id == *issue_id {
                return self.rules[i].weight;
            }
        }
        assert(self.rules@.take(0) == Seq::<WeightRule>::empty());
        DEFAULT_WEIGHT
    }

    /// The health and speed scores of a list of issues. Every issue takes its
    /// weighted penalty from the score that its category names; the deltas
    /// are left unset.
    pub fn calculate_scores(&self, issues: &[Issue]) -> (scores: SystemScores)
        ensures
            scores == scores_of(self@, issues@),
            scores.health as nat == score_after(total_health_loss(self@, issues@)),
            scores.speed as nat == score_after(total_speed_loss(self@, issues@)),
            scores.in_range(),
    {
        let mut health_lost: u64 = 0;
        let mut speed_lost: u64 = 0;
        let mut i: usize = 0;
        while i < issues.len()
            invariant
                i <= issues@.len(),
                health_lost as nat == capped(total_health_loss(self@, issues@.take(i as int))),
                speed_lost as nat == capped(total_speed_loss(self@, issues@.take(i as int))),
            decreases issues@.len() - i,
        {
            let issue = &issues[i];
            let weight: u64 = self.weight_of(&issue.id) as u64;
            let ghost upto = issues@.take(i + 1);
            assert(upto.drop_last() == issues@.take(i as int));
            assert(upto.last() == *issue);
            let (health_points, speed_points): (u64, u64) = match issue.impact_category {
                ImpactCategory::Security => (security_points(issue.severity), 0),
                ImpactCategory::Performance => (0, performance_points(issue.severity)),
                ImpactCategory::Both => (15, 15),
                ImpactCategory::Privacy => (0, 0),
            };
            assert(health_points * weight == health_loss(*issue, weight as nat)) by (nonlinear_arith)
                requires
                    health_points as nat * weight as nat == health_loss(*issue, weight as nat),
            ;
            assert(speed_points * weight == speed_loss(*issue, weight as nat)) by (nonlinear_arith)
                requires
                    speed_points as nat * weight as nat == speed_loss(*issue, weight as nat),
            ;
            assert(health_points * weight <= 25 * 0xffff_ffff) by (nonlinear_arith)
                requires
                    health_points <= 25,
                    weight <= 0xffff_ffff,
            ;
            assert(speed_points * weight <= 25 * 0xffff_ffff) by (nonlinear_arith)
                requires
                    speed_points <= 25,
                    weight <= 0xffff_ffff,
            ;
            health_lost = add_capped(health_lost, health_points * weight);
            speed_lost = add_capped(speed_lost, speed_points * weight);
            i = i + 1;
        }
        assert(issues@.take(issues@.len() as int) == issues@);
        let health: u8 = ((FULL_SCORE - health_lost) / 100) as u8;
        let speed: u8 = ((FULL_SCORE - speed_lost) / 100) as u8;
        SystemScores { health, speed, health_delta: None, speed_delta: None }
    }
}

/// A loss, counted no further than a perfect score.
pub open spec fn capped(loss: nat) -> nat {
    if loss >= FULL_SCORE as nat {
        FULL_SCORE as nat
    } else {
        loss
    }
}

fn add_capped(lost: u64, more: u64) -> (r: u64)
    requires
        lost <= FULL_SCORE,
    ensures
        r <= FULL_SCORE,
        forall|total: nat| capped(total) == lost as nat ==> #[trigger] capped(total + more as nat) == r as nat,
{
    if more >= FULL_SCORE - lost {
        FULL_SCORE
    } else {
        lost + more
    }
}

fn security_points(severity: IssueSeverity) -> (p: u64)
    ensures
        p as nat == security_penalty(severity),
{
    match severity {
        IssueSeverity::Critical => 20,
        IssueSeverity::Warning => 10,
        IssueSeverity::Info => 2,
    }
}

fn performance_points(severity: IssueSeverity) -> (p: u64)
    ensures
        p as nat == performance_penalty(severity),
{
    match severity {
        IssueSeverity::Critical => 25,
        IssueSeverity::Warning => 12,
        IssueSeverity::Info => 3,
    }
}

} // verus!
