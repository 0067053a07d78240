//! Human-readable rendering of a time span as whole hours and minutes.

use vstd::prelude::*;
use vstd::string::StringExecFns;

verus! {

/// The character for one decimal digit.
pub open spec fn digit_char(d: nat) -> char
    recommends
        d < 10,
{
    if d == 0 {
        '0'
    } else if d == 1 {
        '1'
    } else if d == 2 {
        '2'
    } else if d == 3 {
        '3'
    } else if d == 4 {
        '4'
    } else if d == 5 {
        '5'
    } else if d == 6 {
        '6'
    } else if d == 7 {
        '7'
    } else if d == 8 {
        '8'
    } else {
        '9'
    }
}

/// The decimal numeral of `n`, most significant digit first, with no leading
/// zeros (except for `n == 0` itself).
pub open spec fn decimal(n: nat) -> Seq<char>
    decreases n,
{
    if n < 10 {
        seq![digit_char(n)]
    } else {
        decimal(n / 10) + seq![digit_char(n % 10)]
    }
}

/// Appends the character of the single decimal digit `d`.
fn push_digit(s: &mut String, d: u64)
    requires
        d < 10,
    ensures
        final(s)@ == old(s)@ + seq![digit_char(d as nat)],
{
    if d == 0 {
        s.append("0");
        proof {
            reveal_strlit("0");
            assert(final(s)@ =~= old(s)@ + seq![digit_char(d as nat)]);
        }
    } else if d == 1 {
        s.append("1");
        proof {
            reveal_strlit("1");
            assert(final(s)@ =~= old(s)@ + seq![digit_char(d as nat)]);
        }
    } else if d == 2 {
        s.append("2");
        proof {
            reveal_strlit("2");
            assert(final(s)@ =~= old(s)@ + seq![digit_char(d as nat)]);
        }
    } else if d == 3 {
        s.append("3");
        proof {
            reveal_strlit("3");
            assert(final(s)@ =~= old(s)@ + seq![digit_char(d as nat)]);
        }
    } else if d == 4 {
        s.append("4");
        proof {
            reveal_strlit("4");
            assert(final(s)@ =~= old(s)@ + seq![digit_char(d as nat)]);
        }
    } else if d == 5 {
        s.append("5");
        proof {
            reveal_strlit("5");
            assert(final(s)@ =~= old(s)@ + seq![digit_char(d as nat)]);
        }
    } else if d == 6 {
        s.append("6");
        proof {
            reveal_strlit("6");
            assert(final(s)@ =~= old(s)@ + seq![digit_char(d as nat)]);
        }
    } else if d == 7 {
        s.append("7");
        proof {
            reveal_strlit("7");
            assert(final(s)@ =~= old(s)@ + seq![digit_char(d as nat)]);
        }
    } else if d == 8 {
        s.append("8");
        proof {
            reveal_strlit("8");
            assert(final(s)@ =~= old(s)@ + seq![digit_char(d as nat)]);
        }
    } else {
        s.append("9");
        proof {
            reveal_strlit("9");
            assert(final(s)@ =~= old(s)@ + seq![digit_char(d as nat)]);
        }
    }
}

/// The decimal numeral of `n` as a string.
pub fn decimal_string(n: u64) -> (r: String)
    ensures
        r@ == decimal(n as nat),
    decreases n,
{
    if n < 10 {
        let mut s = String::new();
        push_digit(&mut s, n);
        proof {
            assert(s@ =~= decimal(n as nat));
        }
        s
    } else {
        let mut s = decimal_string(n / 10);
        push_digit(&mut s, n % 10);
        proof {
            assert(s@ =~= decimal(n as nat));
        }
        s
    }
}

/// The hours clause: the count followed by a correctly pluralized unit.
pub open spec fn hours_clause(h: nat) -> Seq<char> {
    decimal(h) + (if h == 1 {
        " hour"@
    } else {
        " hours"@
    })
}

/// The minutes clause: the count followed by a correctly pluralized unit.
pub open spec fn minutes_clause(m: nat) -> Seq<char> {
    decimal(m) + (if m == 1 {
        " minute"@
    } else {
        " minutes"@
    })
}

/// What `format_duration` returns: the span decomposed into whole hours and
/// whole remaining minutes (seconds truncated), a clause per nonzero unit,
/// comma-joined, hours first; "0 minutes" when both are zero.
pub open spec fn format_duration_spec(total_seconds: u64) -> Seq<char> {
    let h = total_seconds as nat / 3600;
    let m = (total_seconds as nat % 3600) / 60;
    if h > 0 && m > 0 {
        hours_clause(h) + ", "@ + minutes_clause(m)
    } else if h > 0 {
        hours_clause(h)
    } else if m > 0 {
        minutes_clause(m)
    } else {
        "0 minutes"@
    }
}

/// Renders a time span, given in whole seconds, as an hours-and-minutes
/// phrase such as "1 hour, 5 minutes".
pub fn format_duration(total_seconds: u64) -> (r: String)
    ensures
        r@ == format_duration_spec(total_seconds),
{
    let hours: u64 = total_seconds / 3600;
    let minutes: u64 = (total_seconds % 3600) / 60;
    let mut out = String::new();
    if hours > 0 {
        let h = decimal_string(hours);
        out.append(h.as_str());
        if hours == 1 {
            out.append(" hour");
        } else {
            out.append(" hours");
        }
    }
    if minutes > 0 {
        if hours > 0 {
            out.append(", ");
        }
        let m = decimal_string(minutes);
        out.append(m.as_str());
        if minutes == 1 {
            out.append(" minute");
        } else {
            out.append(" minutes");
        }
    }
    if hours == 0 && minutes == 0 {
        out.append("0 minutes");
    }
    proof {
        assert(out@ =~= format_duration_spec(total_seconds));
    }
    out
}

} // verus!
