use vstd::multiset::Multiset;
use vstd::prelude::*;

use crate::text::text_eq;
use crate::timestamp::{parse_rfc3339, rfc3339_parse, Timestamp};

verus! {

/// An assignee as the tracker reports it; only the login is kept.
pub struct Assignee {
    pub login: String,
}

/// An author as the tracker reports it; only the login is kept.
pub struct Author {
    pub login: String,
}

/// A label as the tracker reports it; only the name is kept.
pub struct Label {
    pub name: String,
}

/// One issue as the tracker reports it, with its timestamps still as text.
pub struct IssueMetadataRepr {
    pub assignees: Vec<Assignee>,
    pub author: Author,
    pub created_at: String,
    pub labels: Vec<Label>,
    pub number: u64,
    pub title: String,
    pub updated_at: String,
    pub url: String,
}

/// One normalized issue record.
pub struct IssueMetadata {
    pub assignees: Vec<String>,
    pub author: String,
    pub created_at: Timestamp,
    pub labels: Vec<String>,
    pub number: u64,
    pub title: String,
    pub updated_at: Timestamp,
    pub url: String,
}

/// What an issue record holds, with its texts as character sequences.
pub struct IssueView {
    pub assignees: Seq<Seq<char>>,
    pub author: Seq<char>,
    pub created_at: Timestamp,
    pub labels: Seq<Seq<char>>,
    pub number: u64,
    pub title: Seq<char>,
    pub updated_at: Timestamp,
    pub url: Seq<char>,
}

pub open spec fn strs(v: Seq<String>) -> Seq<Seq<char>> {
    v.map_values(|s: String| s@)
}

impl View for IssueMetadata {
    type V = IssueView;

    open spec fn view(&self) -> IssueView {
        IssueView {
            assignees: strs(self.assignees@),
            author: self.author@,
            created_at: self.created_at,
            labels: strs(self.labels@),
            number: self.number,
            title: self.title@,
            updated_at: self.updated_at,
            url: self.url@,
        }
    }
}

/// The views of a sequence of records.
pub open spec fn record_views(s: Seq<IssueMetadata>) -> Seq<IssueView> {
    s.map_values(|r: IssueMetadata| r@)
}

pub open spec fn logins(s: Seq<Assignee>) -> Seq<Seq<char>> {
    s.map_values(|a: Assignee| a.login@)
}

pub open spec fn label_names(s: Seq<Label>) -> Seq<Seq<char>> {
    s.map_values(|l: Label| l.name@)
}

/// `s` with every repeated entry after its first occurrence left out.
pub open spec fn dedup(s: Seq<Seq<char>>) -> Seq<Seq<char>>
    decreases s.len(),
{
    if s.len() == 0 {
        s
    } else {
        let p = dedup(s.drop_last());
        if p.contains(s.last()) {
            p
        } else {
            p.push(s.last())
        }
    }
}

/// Both timestamps of a raw issue are RFC 3339 date-times.
pub open spec fn timestamps_parse(raw: IssueMetadataRepr) -> bool {
    &&& rfc3339_parse(raw.created_at@) is Some
    &&& rfc3339_parse(raw.updated_at@) is Some
}

/// `r` is the record that normalizing `raw` gives.
pub open spec fn normalized(raw: IssueMetadataRepr, r: IssueView) -> bool {
    &&& r.assignees == dedup(logins(raw.assignees@))
    &&& r.author == raw.author.login@
    &&& rfc3339_parse(raw.created_at@) == Some(r.created_at.fields())
    &&& r.labels == dedup(label_names(raw.labels@))
    &&& r.number == raw.number
    &&& r.title == raw.title@
    &&& rfc3339_parse(raw.updated_at@) == Some(r.updated_at.fields())
    &&& r.url == raw.url@
    &&& r.created_at.wf()
    &&& r.updated_at.wf()
}

/// Why a batch of raw issues could not be normalized.
#[derive(Clone, Copy, Debug, PartialEq, Eq, Structural)]
pub enum NormalizeError {
    /// The issue with this number has a timestamp that is not RFC 3339.
    MalformedTimestamp { number: u64 },
}

/// Whether `v` holds an entry equal to `s`.
pub fn contains_str(v: &Vec<String>, s: &str) -> (r: bool)
    ensures
        r == strs(v@).contains(s@),
{
    let mut i: usize = 0;
    while i < v.len()
        invariant
            i <= v@.len(),
            forall|k: int| 0 <= k < i ==> v@[k]@ != s@,
        decreases v@.len() - i,
    {
        if text_eq(v[i].as_str(), s) {
            assert(strs(v@)[i as int] == s@);
            return true;
        }
        i = i + 1;
    }
    assert forall|k: int| 0 <= k < strs(v@).len() implies strs(v@)[k] != s@ by {}
    false
}

proof fn lemma_dedup_push(s: Seq<Seq<char>>, x: Seq<char>)
    ensures
        dedup(s.push(x)) == if dedup(s).contains(x) { dedup(s) } else { dedup(s).push(x) },
{
    assert(s.push(x).drop_last() == s);
}

/// Appends `x` to `out` unless `out` already holds it.
fn push_new(out: &mut Vec<String>, x: &String)
    ensures
        strs(final(out)@) == if strs(old(out)@).contains(x@) {
            strs(old(out)@)
        } else {
            strs(old(out)@).push(x@)
        },
{
    if !contains_str(out, x.as_str()) {
        out.push(x.clone());
        assert(strs(out@) =~= strs(old(out)@).push(x@));
    }
}

/// The login of each assignee, each once, in order of first occurrence.
fn assignee_logins(v: &Vec<Assignee>) -> (r: Vec<String>)
    ensures
        strs(r@) == dedup(logins(v@)),
{
    let mut out: Vec<String> = Vec::new();
    let mut i: usize = 0;
    while i < v.len()
        invariant
            i <= v@.len(),
            strs(out@) == dedup(logins(v@).subrange(0, i as int)),
        decreases v@.len() - i,
    {
        proof {
            lemma_dedup_push(logins(v@).subrange(0, i as int), v@[i as int].login@);
            assert(logins(v@).subrange(0, i + 1) == logins(v@).subrange(0, i as int).push(
                v@[i as int].login@,
            ));
        }
        push_new(&mut out, &v[i].login);
        i = i + 1;
    }
    assert(logins(v@).subrange(0, i as int) == logins(v@));
    out
}

/// The name of each label, each once, in order of first occurrence.
fn label_strings(v: &Vec<Label>) -> (r: Vec<String>)
    ensures
        strs(r@) == dedup(label_names(v@)),
{
    let mut out: Vec<String> = Vec::new();
    let mut i: usize = 0;
    while i < v.len()
        invariant
            i <= v@.len(),
            strs(out@) == dedup(label_names(v@).subrange(0, i as int)),
        decreases v@.len() - i,
    {
        proof {
            lemma_dedup_push(label_names(v@).subrange(0, i as int), v@[i as int].name@);
            assert(label_names(v@).subrange(0, i + 1) == label_names(v@).subrange(
                0,
                i as int,
            ).push(v@[i as int].name@));
        }
        push_new(&mut out, &v[i].name);
        i = i + 1;
    }
    assert(label_names(v@).subrange(0, i as int) == label_names(v@));
    out
}

/// Flattens one raw issue into a record: logins and label names are kept,
/// each once, and both timestamps are parsed as RFC 3339.
pub fn normalize(raw: &IssueMetadataRepr) -> (r: Result<IssueMetadata, NormalizeError>)
    ensures
        r is Ok <==> timestamps_parse(*raw),
        r matches Ok(m) ==> normalized(*raw, m@),
        r matches Err(e) ==> e == (NormalizeError::MalformedTimestamp { number: raw.number }),
{
    let created_at = match parse_rfc3339(raw.created_at.as_str()) {
        Some(t) => t,
        None => return Err(NormalizeError::MalformedTimestamp { number: raw.number }),
    };
    let updated_at = match parse_rfc3339(raw.updated_at.as_str()) {
        Some(t) => t,
        None => return Err(NormalizeError::MalformedTimestamp { number: raw.number }),
    };
    Ok(IssueMetadata {
        assignees: assignee_logins(&raw.assignees),
        author: raw.author.login.clone(),
        created_at,
        labels: label_strings(&raw.labels),
        number: raw.number,
        title: raw.title.clone(),
        updated_at,
        url: raw.url.clone(),
    })
}

/// `out` is `raw` normalized record by record.
pub open spec fn normalized_all(raw: Seq<IssueMetadataRepr>, out: Seq<IssueMetadata>) -> bool {
    &&& out.len() == raw.len()
    &&& forall|i: int| 0 <= i < raw.len() ==> normalized(#[trigger] raw[i], out[i]@)
}

/// The error that normalizing `raw` gives: that of its first issue with a
/// malformed timestamp.
pub open spec fn first_malformed(raw: Seq<IssueMetadataRepr>, e: NormalizeError) -> bool {
    exists|i: int|
        0 <= i < raw.len() && !timestamps_parse(#[trigger] raw[i]) && (forall|j: int|
            0 <= j < i ==> timestamps_parse(#[trigger] raw[j])) && e == (
        NormalizeError::MalformedTimestamp { number: raw[i].number })
}

/// Normalizes a whole batch. One malformed issue fails the batch.
pub fn simplify_repr(raw: &[IssueMetadataRepr]) -> (r: Result<Vec<IssueMetadata>, NormalizeError>)
    ensures
        r is Ok <==> forall|i: int| 0 <= i < raw@.len() ==> timestamps_parse(#[trigger] raw@[i]),
        r matches Ok(v) ==> normalized_all(raw@, v@),
        r matches Err(e) ==> first_malformed(raw@, e),
{
    let mut out: Vec<IssueMetadata> = Vec::new();
    let mut i: usize = 0;
    while i < raw.len()
        invariant
            i <= raw@.len(),
            out@.len() == i,
            forall|k: int| 0 <= k < i ==> timestamps_parse(#[trigger] raw@[k]),
            forall|k: int| 0 <= k < i ==> normalized(#[trigger] raw@[k], out@[k]@),
        decreases raw@.len() - i,
    {
        match normalize(&raw[i]) {
            Ok(m) => {
                out.push(m);
            },
            Err(e) => {
                assert(first_malformed(raw@, e)) by {
                    assert(!timestamps_parse(raw@[i as int]));
                }
                return Err(e);
            },
        }
        i = i + 1;
    }
    Ok(out)
}

/// Record numbers ascend along `s`.
pub open spec fn sorted_by_number(s: Seq<IssueMetadata>) -> bool {
    forall|i: int, j: int| 0 <= i < j < s.len() ==> s[i].number <= s[j].number
}

/// Sorts records by ascending number, so that the oldest issue comes first.
/// Records with equal numbers keep their relative order.
pub fn sort_by_number(issues: &mut Vec<IssueMetadata>)
    ensures
        sorted_by_number(final(issues)@),
        final(issues)@.to_multiset() == old(issues)@.to_multiset(),
{
    broadcast use vstd::seq_lib::group_to_multiset_ensures, vstd::multiset::group_multiset_axioms;

    let mut out: Vec<IssueMetadata> = Vec::new();
    while issues.len() > 0
        invariant
            sorted_by_number(out@),
            issues@.to_multiset().add(out@.to_multiset()) == old(issues)@.to_multiset(),
        decreases issues@.len(),
    {
        let ghost before = issues@;
        let x = issues.pop().unwrap();
        proof {
            assert(before == issues@.push(x));
        }
        let mut p: usize = 0;
        while p < out.len() && out[p].number < x.number
            invariant
                p <= out@.len(),
                forall|k: int| 0 <= k < p ==> out@[k].number < x.number,
            decreases out@.len() - p,
        {
            p = p + 1;
        }
        let ghost prev = out@;
        out.insert(p, x);
        proof {
            assert(out@ == prev.insert(p as int, x));
            vstd::seq_lib::to_multiset_build(issues@, x);
            vstd::seq_lib::to_multiset_insert(prev, p as int, x);
            assert(issues@.to_multiset().add(out@.to_multiset()) =~= before.to_multiset().add(
                prev.to_multiset(),
            ));
            assert forall|i: int, j: int| 0 <= i < j < out@.len() implies out@[i].number
                <= out@[j].number by {
                if j < p {
                } else if j == p {
                } else if i < p {
                    assert(out@[j] == prev[j - 1]);
                    assert(p < prev.len() ==> prev[p as int].number >= x.number);
                } else if i == p {
                    assert(out@[j] == prev[j - 1]);
                    assert(prev[p as int].number >= x.number);
                } else {
                    assert(out@[j] == prev[j - 1]);
                    assert(out@[i] == prev[i - 1]);
                }
            }
        }
    }
    proof {
        assert(issues@.to_multiset() =~= Multiset::empty());
    }
    *issues = out;
}

/// The batch that a triage reviews: `raw` normalized and sorted by number.
pub fn normalize_batch(raw: &[IssueMetadataRepr]) -> (r: Result<Vec<IssueMetadata>, NormalizeError>)
    ensures
        r is Ok <==> forall|i: int| 0 <= i < raw@.len() ==> timestamps_parse(#[trigger] raw@[i]),
        r matches Ok(v) ==> sorted_by_number(v@) && exists|w: Seq<IssueMetadata>|
            normalized_all(raw@, w) && v@.to_multiset() == w.to_multiset(),
        r matches Err(e) ==> first_malformed(raw@, e),
{
    let mut v = simplify_repr(raw)?;
    let ghost w = v@;
    sort_by_number(&mut v);
    assert(normalized_all(raw@, w) && v@.to_multiset() == w.to_multiset());
    Ok(v)
}

proof fn lemma_dedup(s: Seq<Seq<char>>)
    ensures
        dedup(s).to_set() == s.to_set(),
        dedup(s).no_duplicates(),
    decreases s.len(),
{
    broadcast use vstd::seq_lib::group_seq_properties, vstd::set::group_set_axioms;

    if s.len() == 0 {
        assert(s.to_set() =~= Set::empty());
    } else {
        let rest = s.drop_last();
        lemma_dedup(rest);
        assert(s == rest.push(s.last()));
        assert(s.to_set() =~= rest.to_set().insert(s.last()));
        let p = dedup(rest);
        if !p.contains(s.last()) {
            assert(p.push(s.last()).to_set() =~= p.to_set().insert(s.last()));
        } else {
            assert(p.to_set().contains(s.last()));
            assert(s.to_set() =~= rest.to_set());
        }
    }
}

/// Normalizing keeps an issue's number, title and URL, and the sets of its
/// label names and of its assignees' logins; the record lists each of them
/// once.
pub proof fn lemma_normalize_preserves(raw: IssueMetadataRepr, r: IssueView)
    requires
        normalized(raw, r),
    ensures
        r.number == raw.number,
        r.title == raw.title@,
        r.url == raw.url@,
        r.labels.to_set() == label_names(raw.labels@).to_set(),
        r.labels.no_duplicates(),
        r.assignees.to_set() == logins(raw.assignees@).to_set(),
        r.assignees.no_duplicates(),
{
    lemma_dedup(label_names(raw.labels@));
    lemma_dedup(logins(raw.assignees@));
}

} // verus!
