//! Template rendering: literal placeholder substitution against a live
//! metrics snapshot.

use crate::duration::format_duration;
use crate::duration::format_duration_spec;
use vstd::prelude::*;
use vstd::string::StrSliceExecFns;
use vstd::string::StringExecFns;

verus! {

/// `p` occurs in `s` starting at position `i`.
pub open spec fn occurs_at(s: Seq<char>, p: Seq<char>, i: int) -> bool {
    &&& 0 <= i
    &&& i + p.len() <= s.len()
    &&& s.subrange(i, i + p.len() as int) == p
}

/// `p` occurs nowhere in `s`.
pub open spec fn no_occurrence(s: Seq<char>, p: Seq<char>) -> bool {
    forall|i: int| !occurs_at(s, p, i)
}

/// `s` with every occurrence of `p` replaced by `r`: occurrences are found
/// left to right and do not overlap; an empty pattern replaces nothing.
pub open spec fn replace_spec(s: Seq<char>, p: Seq<char>, r: Seq<char>) -> Seq<char>
    decreases s.len(),
{
    if p.len() == 0 || s.len() < p.len() {
        s
    } else if s.take(p.len() as int) == p {
        r + replace_spec(s.skip(p.len() as int), p, r)
    } else {
        seq![s[0]] + replace_spec(s.skip(1), p, r)
    }
}

/// Whether `pat` matches `text` at character position `i`.
fn match_at(text: &str, pat: &str, i: usize) -> (b: bool)
    requires
        i + pat@.len() <= text@.len(),
        text@.len() <= usize::MAX,
    ensures
        b == occurs_at(text@, pat@, i as int),
{
    let m = pat.unicode_len();
    let mut j: usize = 0;
    while j < m
        invariant
            0 <= j <= m,
            m == pat@.len(),
            i + m <= text@.len() <= usize::MAX,
            forall|k: int| 0 <= k < j ==> text@[i + k] == pat@[k],
        decreases m - j,
    {
        if text.get_char(i + j) != pat.get_char(j) {
            proof {
                assert(text@.subrange(i as int, i + m as int)[j as int] == text@[i + j]);
                assert(!occurs_at(text@, pat@, i as int));
            }
            return false;
        }
        j = j + 1;
    }
    proof {
        assert(text@.subrange(i as int, i + m as int) =~= pat@);
    }
    true
}

/// Replaces every occurrence of `pat` in `text` by `rep`, left to right and
/// without overlap; with an empty pattern the text comes back unchanged.
pub fn replace_all(text: &str, pat: &str, rep: &str) -> (out: String)
    ensures
        out@ == replace_spec(text@, pat@, rep@),
{
    let n = text.unicode_len();
    let m = pat.unicode_len();
    if m == 0 {
        return text.to_owned();
    }
    let mut out = String::new();
    let mut i: usize = 0;
    proof {
        assert(text@.skip(0) =~= text@);
        assert(Seq::<char>::empty() + replace_spec(text@, pat@, rep@) =~= replace_spec(
            text@,
            pat@,
            rep@,
        ));
    }
    while i < n
        invariant
            0 <= i <= n,
            n == text@.len(),
            m == pat@.len(),
            m >= 1,
            out@ + replace_spec(text@.skip(i as int), pat@, rep@) == replace_spec(
                text@,
                pat@,
                rep@,
            ),
        decreases n - i,
    {
        let ghost tail = text@.skip(i as int);
        if m <= n - i && match_at(text, pat, i) {
            out.append(rep);
            proof {
                assert(tail.take(m as int) =~= text@.subrange(i as int, i + m as int));
                assert(tail.skip(m as int) =~= text@.skip(i + m as int));
                assert(replace_spec(tail, pat@, rep@) == rep@ + replace_spec(
                    tail.skip(m as int),
                    pat@,
                    rep@,
                ));
            }
            i = i + m;
        } else {
            let c = text.substring_char(i, i + 1);
            out.append(c);
            proof {
                if i + m <= n {
                    assert(tail.take(m as int) =~= text@.subrange(i as int, i + m as int));
                    assert(!occurs_at(text@, pat@, i as int));
                    assert(tail.take(m as int) != pat@);
                    assert(replace_spec(tail, pat@, rep@) == seq![tail[0]] + replace_spec(
                        tail.skip(1),
                        pat@,
                        rep@,
                    ));
                } else {
                    assert(tail.len() < m);
                    assert(replace_spec(tail, pat@, rep@) == tail);
                    assert(tail.skip(1).len() < m);
                    assert(replace_spec(tail.skip(1), pat@, rep@) == tail.skip(1));
                    assert(tail =~= seq![tail[0]] + tail.skip(1));
                }
                assert(tail.skip(1) =~= text@.skip(i + 1));
                assert(c@ =~= seq![tail[0]]);
            }
            i = i + 1;
        }
    }
    proof {
        assert(text@.skip(n as int) =~= Seq::<char>::empty());
        assert(replace_spec(Seq::<char>::empty(), pat@, rep@) == Seq::<char>::empty());
        assert(out@ + Seq::<char>::empty() =~= out@);
    }
    out
}

/// A template without the placeholder is left verbatim.
pub proof fn lemma_replace_absent(s: Seq<char>, p: Seq<char>, r: Seq<char>)
    requires
        no_occurrence(s, p),
    ensures
        replace_spec(s, p, r) == s,
    decreases s.len(),
{
    if p.len() == 0 || s.len() < p.len() {
    } else {
        assert(s.take(p.len() as int) =~= s.subrange(0, p.len() as int));
        assert(!occurs_at(s, p, 0));
        assert(s.take(p.len() as int) != p);
        assert forall|i: int| !occurs_at(s.skip(1), p, i) by {
            if 0 <= i && i + p.len() <= s.skip(1).len() {
                assert(s.skip(1).subrange(i, i + p.len() as int) =~= s.subrange(
                    i + 1,
                    i + 1 + p.len() as int,
                ));
                assert(!occurs_at(s, p, i + 1));
            }
        }
        lemma_replace_absent(s.skip(1), p, r);
        assert(replace_spec(s, p, r) == seq![s[0]] + s.skip(1));
        assert(seq![s[0]] + s.skip(1) =~= s);
    }
}

/// The device's live metrics, read fresh at render time: the time to empty in
/// whole seconds (negative or zero meaning unknown), and the percentage as
/// the exact text of the number the device reported.
pub struct MetricsSnapshot {
    pub time_to_empty: i64,
    pub percentage: String,
}

/// The seconds handed to the duration formatter: a negative time to empty
/// saturates to zero.
pub open spec fn clamped_seconds(time_to_empty: i64) -> u64 {
    if time_to_empty < 0 {
        0u64
    } else {
        time_to_empty as u64
    }
}

/// What `render` returns: the time placeholder replaced first, then the
/// percentage placeholder, each everywhere it occurs; unknown placeholders
/// are left verbatim.
pub open spec fn render_spec(template: Seq<char>, time_to_empty: i64, percentage: Seq<char>) -> Seq<
    char,
> {
    replace_spec(
        replace_spec(template, "{time}"@, format_duration_spec(clamped_seconds(time_to_empty))),
        "{percentage}"@,
        percentage,
    )
}

/// Renders a notification body: substitutes the formatted time to empty for
/// every `{time}` and the percentage text for every `{percentage}`.
pub fn render(template: &str, metrics: &MetricsSnapshot) -> (r: String)
    ensures
        r@ == render_spec(template@, metrics.time_to_empty, metrics.percentage@),
{
    let seconds: u64 = if metrics.time_to_empty < 0 {
        0
    } else {
        metrics.time_to_empty as u64
    };
    let time_text = format_duration(seconds);
    let with_time = replace_all(template, "{time}", time_text.as_str());
    replace_all(with_time.as_str(), "{percentage}", metrics.percentage.as_str())
}

} // verus!
