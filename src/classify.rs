use vstd::multiset::Multiset;
use vstd::prelude::*;

use crate::issue_metadata::{contains_str, record_views, strs, IssueMetadata, IssueView};
use crate::text::{has_prefix, starts_with};

verus! {

/// The views of a sequence of borrowed records.
pub open spec fn ref_views(s: Seq<&IssueMetadata>) -> Seq<IssueView> {
    s.map_values(|r: &IssueMetadata| r@)
}

/// Some entry of `items` begins with `p`.
pub open spec fn any_has_prefix(items: Seq<Seq<char>>, p: Seq<char>) -> bool {
    exists|k: int| 0 <= k < items.len() && has_prefix(#[trigger] items[k], p)
}

/// The issue carries no team label (no label begins with `T-`).
pub open spec fn is_no_team(v: IssueView) -> bool {
    !any_has_prefix(v.labels, "T-"@)
}

/// The issue carries the label `team`.
pub open spec fn is_team_scoped(v: IssueView, team: Seq<char>) -> bool {
    v.labels.contains(team)
}

/// The issue has no owner: no working-group label (none begins with `WG-`)
/// and no assignee.
pub open spec fn is_no_owner(v: IssueView) -> bool {
    !any_has_prefix(v.labels, "WG-"@) && v.assignees.len() == 0
}

pub open spec fn no_team_bucket(s: Seq<IssueView>) -> Seq<IssueView> {
    s.filter(|v: IssueView| is_no_team(v))
}

pub open spec fn team_bucket(s: Seq<IssueView>, team: Seq<char>) -> Seq<IssueView> {
    s.filter(|v: IssueView| is_team_scoped(v, team))
}

pub open spec fn no_owner_bucket(s: Seq<IssueView>) -> Seq<IssueView> {
    s.filter(|v: IssueView| is_no_owner(v))
}

pub open spec fn has_owner_bucket(s: Seq<IssueView>) -> Seq<IssueView> {
    s.filter(|v: IssueView| !is_no_owner(v))
}

proof fn lemma_filter_step(s: Seq<IssueView>, i: int, pred: spec_fn(IssueView) -> bool)
    requires
        0 <= i < s.len(),
    ensures
        s.subrange(0, i + 1).filter(pred) == if pred(s[i]) {
            s.subrange(0, i).filter(pred).push(s[i])
        } else {
            s.subrange(0, i).filter(pred)
        },
{
    reveal(Seq::filter);
    assert(s.subrange(0, i + 1).drop_last() == s.subrange(0, i));
}

/// Whether some entry of `items` begins with `p`.
pub fn has_label_with_prefix(items: &Vec<String>, p: &str) -> (r: bool)
    ensures
        r == any_has_prefix(strs(items@), p@),
{
    let mut i: usize = 0;
    while i < items.len()
        invariant
            i <= items@.len(),
            forall|k: int| 0 <= k < i ==> !has_prefix(#[trigger] strs(items@)[k], p@),
        decreases items@.len() - i,
    {
        if starts_with(items[i].as_str(), p) {
            assert(has_prefix(strs(items@)[i as int], p@));
            return true;
        }
        i = i + 1;
    }
    false
}

/// The issues among `issues` that carry no team label, in their order.
pub fn no_team<'a>(issues: &'a [IssueMetadata]) -> (r: Vec<&'a IssueMetadata>)
    ensures
        ref_views(r@) == no_team_bucket(record_views(issues@)),
{
    let ghost s = record_views(issues@);
    let mut out: Vec<&'a IssueMetadata> = Vec::new();
    let mut i: usize = 0;
    while i < issues.len()
        invariant
            i <= issues@.len(),
            s == record_views(issues@),
            ref_views(out@) == no_team_bucket(s.subrange(0, i as int)),
        decreases issues@.len() - i,
    {
        proof {
            lemma_filter_step(s, i as int, |v: IssueView| is_no_team(v));
        }
        let issue = &issues[i];
        let ghost prev = out@;
        if !has_label_with_prefix(&issue.labels, "T-") {
            out.push(issue);
            assert(ref_views(out@) =~= ref_views(prev).push(issue@));
        }
        i = i + 1;
    }
    assert(s.subrange(0, i as int) == s);
    out
}

/// The issues among `issues` that carry the label `team`, in their order.
pub fn team_scoped<'a>(issues: &'a [IssueMetadata], team: &str) -> (r: Vec<&'a IssueMetadata>)
    ensures
        ref_views(r@) == team_bucket(record_views(issues@), team@),
{
    let ghost s = record_views(issues@);
    let mut out: Vec<&'a IssueMetadata> = Vec::new();
    let mut i: usize = 0;
    while i < issues.len()
        invariant
            i <= issues@.len(),
            s == record_views(issues@),
            ref_views(out@) == team_bucket(s.subrange(0, i as int), team@),
        decreases issues@.len() - i,
    {
        proof {
            lemma_filter_step(s, i as int, |v: IssueView| is_team_scoped(v, team@));
        }
        let issue = &issues[i];
        let ghost prev = out@;
        if contains_str(&issue.labels, team) {
            out.push(issue);
            assert(ref_views(out@) =~= ref_views(prev).push(issue@));
        }
        i = i + 1;
    }
    assert(s.subrange(0, i as int) == s);
    out
}

/// Whether the issue has no owner: no working-group label and no assignee.
pub fn has_no_owner(issue: &IssueMetadata) -> (r: bool)
    ensures
        r == is_no_owner(issue@),
{
    !has_label_with_prefix(&issue.labels, "WG-") && issue.assignees.len() == 0
}

/// Splits `issues` into those without an owner and those with one, each part
/// in the order of `issues`.
pub fn partition_by_ownership<'a>(issues: &[&'a IssueMetadata]) -> (r: (
    Vec<&'a IssueMetadata>,
    Vec<&'a IssueMetadata>,
))
    ensures
        ref_views(r.0@) == no_owner_bucket(ref_views(issues@)),
        ref_views(r.1@) == has_owner_bucket(ref_views(issues@)),
{
    let ghost s = ref_views(issues@);
    let mut no_owner: Vec<&'a IssueMetadata> = Vec::new();
    let mut has_owner: Vec<&'a IssueMetadata> = Vec::new();
    let mut i: usize = 0;
    while i < issues.len()
        invariant
            i <= issues@.len(),
            s == ref_views(issues@),
            ref_views(no_owner@) == no_owner_bucket(s.subrange(0, i as int)),
            ref_views(has_owner@) == has_owner_bucket(s.subrange(0, i as int)),
        decreases issues@.len() - i,
    {
        proof {
            lemma_filter_step(s, i as int, |v: IssueView| is_no_owner(v));
            lemma_filter_step(s, i as int, |v: IssueView| !is_no_owner(v));
        }
        let issue: &'a IssueMetadata = issues[i];
        let ghost prev_no = no_owner@;
        let ghost prev_has = has_owner@;
        if has_no_owner(issue) {
            no_owner.push(issue);
            assert(ref_views(no_owner@) =~= ref_views(prev_no).push(issue@));
        } else {
            has_owner.push(issue);
            assert(ref_views(has_owner@) =~= ref_views(prev_has).push(issue@));
        }
        i = i + 1;
    }
    assert(s.subrange(0, i as int) == s);
    (no_owner, has_owner)
}

/// `r` is `s` with some entries left out and the rest kept in their order.
pub open spec fn is_subsequence(r: Seq<IssueView>, s: Seq<IssueView>) -> bool {
    exists|idx: Seq<int>|
        {
            &&& idx.len() == r.len()
            &&& forall|k: int| 0 <= k < r.len() ==> 0 <= #[trigger] idx[k] < s.len() && r[k] == s[idx[k]]
            &&& forall|k: int, l: int| 0 <= k < l < r.len() ==> idx[k] < idx[l]
        }
}

proof fn lemma_filter_subsequence(s: Seq<IssueView>, pred: spec_fn(IssueView) -> bool) -> (idx: Seq<int>)
    ensures
        idx.len() == s.filter(pred).len(),
        forall|k: int| 0 <= k < idx.len() ==> 0 <= #[trigger] idx[k] < s.len() && s.filter(pred)[k] == s[idx[k]],
        forall|k: int, l: int| 0 <= k < l < idx.len() ==> idx[k] < idx[l],
    decreases s.len(),
{
    reveal(Seq::filter);
    if s.len() == 0 {
        Seq::empty()
    } else {
        let prev = lemma_filter_subsequence(s.drop_last(), pred);
        if pred(s.last()) {
            prev.push(s.len() - 1)
        } else {
            prev
        }
    }
}

proof fn lemma_bucket_subsequence(s: Seq<IssueView>, pred: spec_fn(IssueView) -> bool)
    ensures
        is_subsequence(s.filter(pred), s),
{
    let idx = lemma_filter_subsequence(s, pred);
    assert(idx.len() == s.filter(pred).len());
}

/// Classification keeps order: each bucket is a subsequence of the records it
/// was drawn from, so records in a bucket appear in their input order.
pub proof fn lemma_buckets_keep_order(issues: Seq<IssueMetadata>, team: Seq<char>, scoped: Seq<IssueView>)
    ensures
        is_subsequence(no_team_bucket(record_views(issues)), record_views(issues)),
        is_subsequence(team_bucket(record_views(issues), team), record_views(issues)),
        is_subsequence(no_owner_bucket(scoped), scoped),
        is_subsequence(has_owner_bucket(scoped), scoped),
{
    lemma_bucket_subsequence(record_views(issues), |v: IssueView| is_no_team(v));
    lemma_bucket_subsequence(record_views(issues), |v: IssueView| is_team_scoped(v, team));
    lemma_bucket_subsequence(scoped, |v: IssueView| is_no_owner(v));
    lemma_bucket_subsequence(scoped, |v: IssueView| !is_no_owner(v));
}

/// No record lies both in the no-team bucket and in the bucket of a team
/// label, that is of a label that begins with `T-`.
pub proof fn lemma_no_team_disjoint_from_team_scoped(issues: Seq<IssueMetadata>, team: Seq<char>)
    requires
        has_prefix(team, "T-"@),
    ensures
        forall|v: IssueView|
            #[trigger] no_team_bucket(record_views(issues)).contains(v) ==> !team_bucket(
                record_views(issues),
                team,
            ).contains(v),
{
    let s = record_views(issues);
    s.filter_lemma(|v: IssueView| is_no_team(v));
    s.filter_lemma(|v: IssueView| is_team_scoped(v, team));
    assert forall|v: IssueView| #[trigger] no_team_bucket(s).contains(v) implies !team_bucket(
        s,
        team,
    ).contains(v) by {
        if team_bucket(s, team).contains(v) {
            let k = choose|k: int| 0 <= k < v.labels.len() && v.labels[k] == team;
            assert(has_prefix(v.labels[k], "T-"@));
        }
    }
}

/// The two ownership buckets of a team-scoped sequence partition it: together
/// they hold each of its records as often as it does, and no record lies in
/// both.
pub proof fn lemma_ownership_partition(scoped: Seq<IssueView>)
    ensures
        no_owner_bucket(scoped).to_multiset().add(has_owner_bucket(scoped).to_multiset())
            == scoped.to_multiset(),
        forall|v: IssueView|
            #[trigger] no_owner_bucket(scoped).contains(v) ==> !has_owner_bucket(scoped).contains(v),
    decreases scoped.len(),
{
    broadcast use vstd::seq_lib::group_to_multiset_ensures, vstd::multiset::group_multiset_axioms;

    scoped.filter_lemma(|v: IssueView| is_no_owner(v));
    scoped.filter_lemma(|v: IssueView| !is_no_owner(v));
    if scoped.len() == 0 {
        reveal(Seq::filter);
        assert(no_owner_bucket(scoped).to_multiset() =~= Multiset::empty());
        assert(has_owner_bucket(scoped).to_multiset() =~= Multiset::empty());
        assert(scoped.to_multiset() =~= Multiset::empty());
    } else {
        let rest = scoped.drop_last();
        let x = scoped.last();
        lemma_ownership_partition(rest);
        reveal(Seq::filter);
        assert(scoped == rest.push(x));
        vstd::seq_lib::to_multiset_build(rest, x);
        if is_no_owner(x) {
            vstd::seq_lib::to_multiset_build(no_owner_bucket(rest), x);
        } else {
            vstd::seq_lib::to_multiset_build(has_owner_bucket(rest), x);
        }
        assert(no_owner_bucket(scoped).to_multiset().add(has_owner_bucket(scoped).to_multiset())
            =~= scoped.to_multiset());
    }
}

} // verus!
