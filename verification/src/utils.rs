//! String helpers: character-wise equality, decimal rendering, and the
//! elapsed-time format shown beside each run.

use vstd::prelude::*;

verus! {

/// Character-wise equality of two string slices.
pub fn str_eq(a: &str, b: &str) -> (r: bool)
    ensures
        r == (a@ == b@),
{
    let a_len = a.unicode_len();
    let b_len = b.unicode_len();
    if a_len != b_len {
        assert(a@ != b@) by {
            assert(a@.len() != b@.len());
        }
        return false;
    }
    let mut i: usize = 0;
    while i < a_len
        invariant
            a_len == a@.len(),
            b_len == b@.len(),
            a_len == b_len,
            i <= a_len,
            forall|j: int| 0 <= j < i ==> a@[j] == b@[j],
        decreases a_len - i,
    {
        if a.get_char(i) != b.get_char(i) {
            return false;
        }
        i += 1;
    }
    proof {
        assert(a@ =~= b@);
    }
    true
}

/// The character for one decimal digit.
pub open spec fn spec_digit_char(d: nat) -> char {
    if d == 0 {
        '0'
    } else if d == 1 {
        '1'
    } else if d == 2 {
        '2'
    } else if d == 3 {
        '3'
    } else if d == 4 {
        '4'
    } else if d == 5 {
        '5'
    } else if d == 6 {
        '6'
    } else if d == 7 {
        '7'
    } else if d == 8 {
        '8'
    } else {
        '9'
    }
}

/// The decimal rendering of a number, most significant digit first, no
/// leading zeros.
pub open spec fn dec_rep(n: nat) -> Seq<char>
    decreases n,
{
    if n < 10 {
        seq![spec_digit_char(n)]
    } else {
        dec_rep(n / 10).push(spec_digit_char(n % 10))
    }
}

/// The decimal rendering padded to at least two digits.
pub open spec fn pad2_rep(n: nat) -> Seq<char> {
    if n < 10 {
        seq!['0'] + dec_rep(n)
    } else {
        dec_rep(n)
    }
}

/// One decimal digit as a string.
fn digit_str(d: u64) -> (r: &'static str)
    requires
        d < 10,
    ensures
        r@ == seq![spec_digit_char(d as nat)],
{
    let r: &'static str = if d == 0 {
        "0"
    } else if d == 1 {
        "1"
    } else if d == 2 {
        "2"
    } else if d == 3 {
        "3"
    } else if d == 4 {
        "4"
    } else if d == 5 {
        "5"
    } else if d == 6 {
        "6"
    } else if d == 7 {
        "7"
    } else if d == 8 {
        "8"
    } else {
        "9"
    };
    proof {
        reveal_strlit("0");
        reveal_strlit("1");
        reveal_strlit("2");
        reveal_strlit("3");
        reveal_strlit("4");
        reveal_strlit("5");
        reveal_strlit("6");
        reveal_strlit("7");
        reveal_strlit("8");
        reveal_strlit("9");
        assert(r@ =~= seq![spec_digit_char(d as nat)]);
    }
    r
}

/// Renders a number in decimal.
pub fn u64_to_dec(n: u64) -> (r: String)
    ensures
        r@ == dec_rep(n as nat),
    decreases n,
{
    if n < 10 {
        digit_str(n).to_owned()
    } else {
        let mut high = u64_to_dec(n / 10);
        let low = digit_str(n % 10);
        high.append(low);
        proof {
            assert(high@ =~= dec_rep(n as nat));
        }
        high
    }
}

/// Renders a number in decimal, zero-padded to at least two digits.
pub fn u64_to_dec_pad2(n: u64) -> (r: String)
    ensures
        r@ == pad2_rep(n as nat),
{
    if n < 10 {
        let mut out = "0".to_owned();
        let low = digit_str(n);
        out.append(low);
        proof {
            reveal_strlit("0");
            assert(out@ =~= pad2_rep(n as nat));
        }
        out
    } else {
        u64_to_dec(n)
    }
}

/// The elapsed-time rendering for a duration in hundredths of a second:
/// hours, minutes and seconds, the hours omitted when zero, the fraction
/// shown only when the duration is not a whole second.
pub open spec fn spec_format_hms(centis: nat) -> Seq<char> {
    let total = centis / 100;
    let frac = centis % 100;
    let hours = total / 3600;
    let mins = (total / 60) % 60;
    let secs = total % 60;
    let secs_rep = if frac == 0 {
        pad2_rep(secs)
    } else {
        dec_rep(secs) + "."@ + pad2_rep(frac)
    };
    if hours > 0 {
        dec_rep(hours) + "h"@ + pad2_rep(mins) + "m"@ + secs_rep + "s"@
    } else {
        dec_rep(mins) + "m"@ + secs_rep + "s"@
    }
}

/// Formats a duration given in hundredths of a second, as `1h23m45s` or, for
/// a fractional duration without hours, `23m45.67s`.
pub fn format_hms(centis: u64) -> (r: String)
    ensures
        r@ == spec_format_hms(centis as nat),
{
    let total = centis / 100;
    let frac = centis % 100;
    let hours = total / 3600;
    let mins = (total / 60) % 60;
    let secs = total % 60;
    let mut out = String::new();
    if hours > 0 {
        let h = u64_to_dec(hours);
        out.append(h.as_str());
        out.append("h");
        let m = u64_to_dec_pad2(mins);
        out.append(m.as_str());
        out.append("m");
    } else {
        let m = u64_to_dec(mins);
        out.append(m.as_str());
        out.append("m");
    }
    if frac == 0 {
        let s = u64_to_dec_pad2(secs);
        out.append(s.as_str());
    } else {
        let s = u64_to_dec(secs);
        out.append(s.as_str());
        out.append(".");
        let f = u64_to_dec_pad2(frac);
        out.append(f.as_str());
    }
    out.append("s");
    proof {
        assert(out@ =~= spec_format_hms(centis as nat));
    }
    out
}

} // verus!
