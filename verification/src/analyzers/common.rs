//! Pieces shared by the analyzers: score arithmetic, per-condition
//! findings, and the text helpers for commands that name a resource.
use crate::resources::{
    or_text, str_eq, text_or, Condition, ConditionView, HealthStatus, ResourceSnapshot,
    SnapshotView,
};
use crate::types::{HealthAnalysisView, IssueView, RecommendationView};
use vstd::prelude::*;

verus! {

/// `a.saturating_sub(b)`.
pub open spec fn sat_sub(a: u8, b: u8) -> u8 {
    if a >= b {
        (a - b) as u8
    } else {
        0
    }
}

/// `score.saturating_sub(amount)`.
pub fn deduct(score: u8, amount: u8) -> (r: u8)
    ensures
        r == sat_sub(score, amount),
{
    if score >= amount {
        score - amount
    } else {
        0
    }
}

/// The score left after the deduction for the health status: 100 less the
/// amount that the analyzer takes for a Warning, an Error or an Unknown
/// status (nothing for Healthy).
pub open spec fn status_score(status: HealthStatus, warning: u8, error: u8, unknown: u8) -> u8 {
    match status {
        HealthStatus::Healthy => 100,
        HealthStatus::Warning => sat_sub(100, warning),
        HealthStatus::Error => sat_sub(100, error),
        HealthStatus::Unknown => sat_sub(100, unknown),
    }
}

pub fn status_base_score(status: HealthStatus, warning: u8, error: u8, unknown: u8) -> (r: u8)
    ensures
        r == status_score(status, warning, error, unknown),
{
    match status {
        HealthStatus::Healthy => 100,
        HealthStatus::Warning => deduct(100, warning),
        HealthStatus::Error => deduct(100, error),
        HealthStatus::Unknown => deduct(100, unknown),
    }
}

/// Applies one deduction per condition, in order, each saturating at 0.
pub open spec fn apply_deductions(
    score: u8,
    conds: Seq<ConditionView>,
    f: spec_fn(ConditionView) -> u8,
) -> u8
    decreases conds.len(),
{
    if conds.len() == 0 {
        score
    } else {
        sat_sub(apply_deductions(score, conds.drop_last(), f), f(conds.last()))
    }
}

/// The findings of each element, concatenated in order.
pub open spec fn concat_map<A, B>(s: Seq<A>, f: spec_fn(A) -> Seq<B>) -> Seq<B>
    decreases s.len(),
{
    if s.len() == 0 {
        Seq::empty()
    } else {
        concat_map(s.drop_last(), f) + f(s.last())
    }
}

pub proof fn lemma_concat_map_step<A, B>(s: Seq<A>, f: spec_fn(A) -> Seq<B>, i: int)
    requires
        0 <= i < s.len(),
    ensures
        concat_map(s.take(i + 1), f) == concat_map(s.take(i), f) + f(s[i]),
{
    assert(s.take(i + 1).drop_last() =~= s.take(i));
}

pub proof fn lemma_deductions_step(
    score: u8,
    s: Seq<ConditionView>,
    f: spec_fn(ConditionView) -> u8,
    i: int,
)
    requires
        0 <= i < s.len(),
    ensures
        apply_deductions(score, s.take(i + 1), f) == sat_sub(
            apply_deductions(score, s.take(i), f),
            f(s[i]),
        ),
{
    assert(s.take(i + 1).drop_last() =~= s.take(i));
}

/// Some element of the list satisfies `p`.
pub open spec fn seq_any<A>(s: Seq<A>, p: spec_fn(A) -> bool) -> bool {
    exists|k: int| 0 <= k < s.len() && p(#[trigger] s[k])
}

/// Some issue of the list has the title `t`.
pub open spec fn has_issue_titled(issues: Seq<IssueView>, t: Seq<char>) -> bool {
    exists|k: int| 0 <= k < issues.len() && #[trigger] issues[k].title == t
}

/// Some recommendation of the list has the title `t`.
pub open spec fn has_recommendation_titled(recs: Seq<RecommendationView>, t: Seq<char>) -> bool {
    exists|k: int| 0 <= k < recs.len() && #[trigger] recs[k].title == t
}

/// Some condition of the list satisfies `p`.
pub open spec fn some_condition(conds: Seq<ConditionView>, p: spec_fn(ConditionView) -> bool) -> bool {
    exists|j: int| 0 <= j < conds.len() && p(#[trigger] conds[j])
}

/// An element of `a + b` satisfies `p` exactly when one of `a` or of `b` does.
pub proof fn lemma_any_add<A>(a: Seq<A>, b: Seq<A>, p: spec_fn(A) -> bool)
    ensures
        seq_any(a + b, p) <==> seq_any(a, p) || seq_any(b, p),
{
    if seq_any(a + b, p) {
        let k = choose|k: int| 0 <= k < (a + b).len() && p(#[trigger] (a + b)[k]);
        if k < a.len() {
            assert(a[k] == (a + b)[k]);
        } else {
            assert(b[k - a.len()] == (a + b)[k]);
        }
    }
    if seq_any(a, p) {
        let k = choose|k: int| 0 <= k < a.len() && p(#[trigger] a[k]);
        assert((a + b)[k] == a[k]);
    }
    if seq_any(b, p) {
        let k = choose|k: int| 0 <= k < b.len() && p(#[trigger] b[k]);
        assert((a + b)[a.len() + k] == b[k]);
    }
}

/// A finding of the concatenated findings satisfies `p` exactly when a
/// finding of some element does.
pub proof fn lemma_concat_map_any<A, B>(s: Seq<A>, f: spec_fn(A) -> Seq<B>, p: spec_fn(B) -> bool)
    ensures
        seq_any(concat_map(s, f), p) <==> exists|i: int|
            0 <= i < s.len() && seq_any(f(#[trigger] s[i]), p),
    decreases s.len(),
{
    if s.len() > 0 {
        let init = s.drop_last();
        lemma_concat_map_any(init, f, p);
        lemma_any_add(concat_map(init, f), f(s.last()), p);
        if exists|i: int| 0 <= i < s.len() && seq_any(f(#[trigger] s[i]), p) {
            let i = choose|i: int| 0 <= i < s.len() && seq_any(f(#[trigger] s[i]), p);
            if i < s.len() - 1 {
                assert(init[i] == s[i]);
            }
        }
        if exists|i: int| 0 <= i < init.len() && seq_any(f(#[trigger] init[i]), p) {
            let i = choose|i: int| 0 <= i < init.len() && seq_any(f(#[trigger] init[i]), p);
            assert(init[i] == s[i]);
        }
    } else {
        assert(!seq_any(concat_map(s, f), p));
    }
}

/// An analysis with more issues and recommendations appended.
pub open spec fn extend_analysis(
    a: HealthAnalysisView,
    issues: Seq<IssueView>,
    recs: Seq<RecommendationView>,
) -> HealthAnalysisView {
    HealthAnalysisView {
        issues: a.issues + issues,
        recommendations: a.recommendations + recs,
        ..a
    }
}

/// The namespace of a resource, `"default"` when it has none.
pub open spec fn ns_or_default(r: SnapshotView) -> Seq<char> {
    or_text(r.namespace, "default"@)
}

pub fn namespace_or_default(r: &ResourceSnapshot) -> (s: &str)
    ensures
        s@ == ns_or_default(r@),
{
    text_or(&r.namespace, "default")
}

/// The reason of a condition, `"Unknown"` when it has none.
pub open spec fn reason_or_unknown(c: ConditionView) -> Seq<char> {
    or_text(c.reason, "Unknown"@)
}

/// Condition `c` has the given type and status.
pub open spec fn cond_is(c: ConditionView, type_: Seq<char>, status: Seq<char>) -> bool {
    c.type_ == type_ && c.status == status
}

pub fn condition_is(c: &Condition, type_: &str, status: &str) -> (r: bool)
    ensures
        r == cond_is(c@, type_@, status@),
{
    str_eq(c.type_.as_str(), type_) && str_eq(c.status.as_str(), status)
}

} // verus!
