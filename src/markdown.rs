use vstd::prelude::*;

use crate::issue_metadata::strs;
use crate::text::{has_prefix, push_zero_padded, starts_with, zero_padded};
use crate::timestamp::Timestamp;

verus! {

/// Why a review document could not be rendered.
#[derive(Clone, Copy, Debug, PartialEq, Eq, Structural)]
pub enum RenderError {
    /// The generation time cannot be written as an RFC 3339 date-time.
    UnformattableTimestamp,
}

/// The items as comma-separated inline code spans: `` `a`, `b` ``; nothing
/// for no items.
pub open spec fn inline_code_list(items: Seq<Seq<char>>) -> Seq<char>
    decreases items.len(),
{
    if items.len() == 0 {
        Seq::empty()
    } else if items.len() == 1 {
        "`"@ + items[0] + "`"@
    } else {
        inline_code_list(items.drop_last()) + ", `"@ + items.last() + "`"@
    }
}

/// The working-group labels among `labels` (those that begin with `WG-`).
pub open spec fn wg_labels(labels: Seq<Seq<char>>) -> Seq<Seq<char>> {
    labels.filter(|l: Seq<char>| has_prefix(l, "WG-"@))
}

/// The calendar date of a timestamp as `YYYY-MM-DD`, with a minus sign before
/// a negative year.
pub open spec fn date_text(t: Timestamp) -> Seq<char> {
    let sign = if t.year < 0 { "-"@ } else { Seq::empty() };
    let year = if t.year < 0 { -t.year } else { t.year as int };
    sign + zero_padded(year as nat, 4) + "-"@ + zero_padded(t.month as nat, 2) + "-"@
        + zero_padded(t.day as nat, 2)
}

/// Appends the items as comma-separated inline code spans.
pub fn push_inline_code_list(buf: &mut String, items: &Vec<String>)
    ensures
        final(buf)@ == old(buf)@ + inline_code_list(strs(items@)),
{
    let ghost s = strs(items@);
    if items.len() == 0 {
        assert(buf@ =~= old(buf)@ + inline_code_list(s));
        return;
    }
    buf.append("`");
    buf.append(items[0].as_str());
    buf.append("`");
    let mut i: usize = 1;
    assert(s.subrange(0, 1).drop_last() =~= Seq::<Seq<char>>::empty());
    assert(buf@ =~= old(buf)@ + inline_code_list(s.subrange(0, 1)));
    while i < items.len()
        invariant
            1 <= i <= items@.len(),
            s == strs(items@),
            buf@ == old(buf)@ + inline_code_list(s.subrange(0, i as int)),
        decreases items@.len() - i,
    {
        buf.append(", `");
        buf.append(items[i].as_str());
        buf.append("`");
        assert(s.subrange(0, i + 1).drop_last() == s.subrange(0, i as int));
        assert(buf@ =~= old(buf)@ + inline_code_list(s.subrange(0, i + 1)));
        i = i + 1;
    }
    assert(s.subrange(0, i as int) == s);
}

/// The working-group labels among `labels`, in their order.
pub fn working_groups(labels: &Vec<String>) -> (r: Vec<String>)
    ensures
        strs(r@) == wg_labels(strs(labels@)),
{
    let ghost s = strs(labels@);
    let mut out: Vec<String> = Vec::new();
    let mut i: usize = 0;
    while i < labels.len()
        invariant
            i <= labels@.len(),
            s == strs(labels@),
            strs(out@) == wg_labels(s.subrange(0, i as int)),
        decreases labels@.len() - i,
    {
        proof {
            reveal(Seq::filter);
            assert(s.subrange(0, i + 1).drop_last() == s.subrange(0, i as int));
        }
        let ghost prev = out@;
        if starts_with(labels[i].as_str(), "WG-") {
            out.push(labels[i].clone());
            assert(strs(out@) =~= strs(prev).push(s[i as int]));
        }
        i = i + 1;
    }
    assert(s.subrange(0, i as int) == s);
    out
}

/// Appends the calendar date of `t` as `YYYY-MM-DD`.
pub fn push_date(buf: &mut String, t: &Timestamp)
    ensures
        final(buf)@ == old(buf)@ + date_text(*t),
{
    let year: u64 = if t.year < 0 {
        buf.append("-");
        proof {
            reveal_strlit("-");
        }
        (0i64 - t.year as i64) as u64
    } else {
        t.year as u64
    };
    let ghost with_sign = buf@;
    push_zero_padded(buf, year, 4);
    buf.append("-");
    push_zero_padded(buf, t.month as u64, 2);
    buf.append("-");
    push_zero_padded(buf, t.day as u64, 2);
    assert(t.year >= 0 ==> with_sign == old(buf)@);
    assert(buf@ =~= old(buf)@ + date_text(*t));
}

} // verus!
