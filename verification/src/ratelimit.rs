//! The rate-limit-aware execution layer of the notification gateway.
//!
//! Every gateway response may carry a descriptor naming the remaining call
//! budget, the time until it replenishes, and the bucket it belongs to.  This
//! module parses the descriptor out of a header map and computes the
//! pre-emptive throttle: when the budget is exhausted, how long the caller
//! must pause before the next call.  The pause itself is taken by the
//! surrounding application.

use vstd::prelude::*;

use crate::utils::str_eq;

verus! {

/// A decimal digit.
pub open spec fn is_digit(c: char) -> bool {
    48 <= c as int <= 57
}

/// The numeric value of a decimal digit.
pub open spec fn digit_val(c: char) -> nat {
    (c as int - 48) as nat
}

/// Every character of the sequence is a decimal digit.
pub open spec fn all_digits(s: Seq<char>) -> bool {
    forall|i: int| 0 <= i < s.len() ==> is_digit(#[trigger] s[i])
}

/// The numeric value of a digit sequence, most significant digit first.
pub open spec fn digits_val(s: Seq<char>) -> nat
    decreases s.len(),
{
    if s.len() == 0 {
        0
    } else {
        digits_val(s.drop_last()) * 10 + digit_val(s.last())
    }
}

/// What parsing an unsigned numeral returns: the value of a non-empty
/// all-digit string when it fits, nothing otherwise.
pub open spec fn spec_parse_u64(s: Seq<char>) -> Option<u64> {
    if s.len() > 0 && all_digits(s) && digits_val(s) <= u64::MAX {
        Some(digits_val(s) as u64)
    } else {
        None
    }
}

/// A digit string's value only grows as more digits are appended.
proof fn lemma_digits_val_prefix_le(s: Seq<char>, i: int)
    requires
        0 <= i <= s.len(),
    ensures
        digits_val(s.subrange(0, i)) <= digits_val(s),
    decreases s.len() - i,
{
    if i < s.len() {
        lemma_digits_val_prefix_le(s, i + 1);
        assert(s.subrange(0, i + 1).drop_last() =~= s.subrange(0, i));
        assert(digits_val(s.subrange(0, i + 1)) == digits_val(s.subrange(0, i)) * 10 + digit_val(
            s.subrange(0, i + 1).last(),
        ));
        assert(digits_val(s.subrange(0, i)) * 10 >= digits_val(s.subrange(0, i)));
    } else {
        assert(s.subrange(0, i) =~= s);
    }
}

/// Parses a non-empty string of decimal digits as a `u64`.
pub fn parse_u64(s: &str) -> (r: Option<u64>)
    ensures
        r == spec_parse_u64(s@),
{
    let len = s.unicode_len();
    if len == 0 {
        return None;
    }
    let mut i: usize = 0;
    let mut acc: u64 = 0;
    while i < len
        invariant
            len == s@.len(),
            i <= len,
            all_digits(s@.subrange(0, i as int)),
            acc == digits_val(s@.subrange(0, i as int)),
        decreases len - i,
    {
        let c = s.get_char(i);
        let cv = c as u32;
        if cv < 48 || cv > 57 {
            proof {
                assert(!is_digit(s@[i as int]));
                assert(!all_digits(s@));
            }
            return None;
        }
        let d = (cv - 48) as u64;
        proof {
            assert(s@.subrange(0, i + 1 as int).drop_last() =~= s@.subrange(0, i as int));
            assert(digits_val(s@.subrange(0, i + 1 as int)) == acc * 10 + d);
        }
        if acc > (u64::MAX - d) / 10 {
            proof {
                assert(acc * 10 + d > u64::MAX) by (nonlinear_arith)
                    requires
                        acc > (u64::MAX - d) / 10,
                        d <= 9,
                ;
                if all_digits(s@) && digits_val(s@) <= u64::MAX {
                    lemma_digits_val_prefix_le(s@, i + 1);
                }
            }
            return None;
        }
        acc = acc * 10 + d;
        i += 1;
    }
    proof {
        assert(s@.subrange(0, len as int) =~= s@);
    }
    Some(acc)
}

/// The largest whole-second value the millisecond conversion accepts.
pub const MAX_WHOLE_SECONDS: u64 = 18446744073709550;

/// `d` is where the first dot sits: no dot before it, and a dot at it unless
/// it is the end of the string.
pub open spec fn spec_is_dot_split(s: Seq<char>, d: int) -> bool {
    &&& 0 <= d <= s.len()
    &&& forall|i: int| 0 <= i < d ==> s[i] != '.'
    &&& d < s.len() ==> s[d] == '.'
}

/// The position of the first dot, or the length when there is none.
pub open spec fn dot_pos(s: Seq<char>) -> int
    decreases s.len(),
{
    if s.len() == 0 {
        0
    } else if s[0] == '.' {
        0
    } else {
        1 + dot_pos(s.drop_first())
    }
}

/// `dot_pos` finds the first dot.
pub proof fn lemma_dot_pos_is_split(s: Seq<char>)
    ensures
        spec_is_dot_split(s, dot_pos(s)),
    decreases s.len(),
{
    if s.len() == 0 {
    } else if s[0] == '.' {
    } else {
        lemma_dot_pos_is_split(s.drop_first());
        assert forall|i: int| 0 <= i < dot_pos(s) implies s[i] != '.' by {
            if i > 0 {
                assert(s[i] == s.drop_first()[i - 1]);
            }
        }
    }
}

/// A string has only one first dot.
pub proof fn lemma_dot_split_unique(s: Seq<char>, a: int, b: int)
    requires
        spec_is_dot_split(s, a),
        spec_is_dot_split(s, b),
    ensures
        a == b,
{
    if a < b {
        assert(s[a] == '.');
        assert(s[a] != '.');
    }
    if b < a {
        assert(s[b] == '.');
        assert(s[b] != '.');
    }
}

/// The digits before the first dot.
pub open spec fn whole_part(s: Seq<char>) -> Seq<char> {
    s.subrange(0, dot_pos(s))
}

/// The digits after the first dot; empty when there is no dot.
pub open spec fn frac_part(s: Seq<char>) -> Seq<char> {
    if dot_pos(s) < s.len() {
        s.subrange(dot_pos(s) + 1, s.len() as int)
    } else {
        Seq::empty()
    }
}

/// The milliseconds contributed by the fractional digits, rounded up: three
/// digits are exact, anything non-zero beyond them adds one.
pub open spec fn frac_millis(f: Seq<char>) -> nat {
    if f.len() == 0 {
        0
    } else if f.len() == 1 {
        digits_val(f) * 100
    } else if f.len() == 2 {
        digits_val(f) * 10
    } else {
        digits_val(f.subrange(0, 3)) + (if exists|i: int|
            3 <= i < f.len() && digit_val(#[trigger] f[i]) > 0 {
            1nat
        } else {
            0nat
        })
    }
}

/// What converting a decimal-seconds string to milliseconds returns: defined
/// for `digits[.digits]` with the whole part non-empty and small enough that
/// the result fits, rounding sub-millisecond digits up.
pub open spec fn spec_secs_to_millis(s: Seq<char>) -> Option<u64> {
    let w = whole_part(s);
    let f = frac_part(s);
    if w.len() > 0 && all_digits(w) && all_digits(f) && digits_val(w) <= MAX_WHOLE_SECONDS {
        Some((digits_val(w) * 1000 + frac_millis(f)) as u64)
    } else {
        None
    }
}

/// Converts a decimal-seconds string (as in a reset-after header) to
/// milliseconds, rounding up so a pause is never cut short.
pub fn parse_secs_to_millis(s: &str) -> (r: Option<u64>)
    ensures
        r == spec_secs_to_millis(s@),
{
    proof {
        lemma_dot_pos_is_split(s@);
    }
    let len = s.unicode_len();
    let mut d: usize = 0;
    while d < len && s.get_char(d) != '.'
        invariant
            len == s@.len(),
            d <= len,
            forall|i: int| 0 <= i < d ==> s@[i] != '.',
        decreases len - d,
    {
        d += 1;
    }
    proof {
        assert(spec_is_dot_split(s@, d as int));
        lemma_dot_split_unique(s@, d as int, dot_pos(s@));
    }
    let whole_str = s.substring_char(0, d);
    let whole = match parse_u64(whole_str) {
        Some(w) => w,
        None => {
            proof {
                if all_digits(whole_part(s@)) && whole_part(s@).len() > 0 && digits_val(
                    whole_part(s@),
                ) <= MAX_WHOLE_SECONDS {
                    assert(digits_val(whole_part(s@)) <= u64::MAX);
                }
            }
            return None;
        },
    };
    if whole > MAX_WHOLE_SECONDS {
        return None;
    }
    let mut m: u64 = 0;
    let mut extra = false;
    if d < len {
        let ghost f = frac_part(s@);
        let f_start = d + 1;
        let f_len = len - f_start;
        let mut j: usize = 0;
        while j < f_len
            invariant
                len == s@.len(),
                d < len,
                f_start == d + 1,
                f_len == len - f_start,
                f == frac_part(s@),
                f == s@.subrange(d + 1, len as int),
                f.len() == f_len,
                j <= f_len,
                all_digits(f.subrange(0, j as int)),
                j == 0 ==> m == 0,
                j == 1 ==> m == digits_val(f.subrange(0, 1)) * 100,
                j == 2 ==> m == digits_val(f.subrange(0, 2)) * 10,
                j >= 3 ==> m == digits_val(f.subrange(0, 3)),
                m <= 999,
                extra == exists|i: int| 3 <= i < j && digit_val(#[trigger] f[i]) > 0,
            decreases f_len - j,
        {
            let c = s.get_char(f_start + j);
            proof {
                assert(f[j as int] == s@[f_start + j]);
            }
            let cv = c as u32;
            if cv < 48 || cv > 57 {
                proof {
                    assert(!is_digit(f[j as int]));
                    assert(!all_digits(f));
                }
                return None;
            }
            let dv = (cv - 48) as u64;
            proof {
                assert(f.subrange(0, j + 1 as int).drop_last() =~= f.subrange(0, j as int));
                assert(digits_val(f.subrange(0, j + 1 as int)) == digits_val(
                    f.subrange(0, j as int),
                ) * 10 + dv);
            }
            if j == 0 {
                m = dv * 100;
                proof {
                    assert(f.subrange(0, 1).drop_last() =~= Seq::<char>::empty());
                    assert(digits_val(f.subrange(0, 1)) == dv);
                }
            } else if j == 1 {
                m = m + dv * 10;
                proof {
                    assert(digits_val(f.subrange(0, 2)) == digits_val(f.subrange(0, 1)) * 10 + dv);
                }
            } else if j == 2 {
                m = m + dv;
            } else {
                if dv > 0 {
                    extra = true;
                }
            }
            j += 1;
        }
        proof {
            assert(f.subrange(0, f_len as int) =~= f);
            if f_len >= 3 {
                assert(m + (if extra {
                    1nat
                } else {
                    0nat
                }) == frac_millis(f));
            } else {
                assert(!extra);
                assert(m == frac_millis(f));
            }
        }
    } else {
        proof {
            assert(frac_part(s@) =~= Seq::<char>::empty());
        }
    }
    let total = whole * 1000 + m + (if extra {
        1u64
    } else {
        0u64
    });
    proof {
        assert(whole * 1000 <= 18446744073709550000u64 as int);
        assert(whole_part(s@).len() > 0 && all_digits(whole_part(s@)) && all_digits(frac_part(s@))
            && digits_val(whole_part(s@)) <= MAX_WHOLE_SECONDS);
    }
    Some(total)
}

/// A rate-limit descriptor, as the gateway reports it beside a response.
#[derive(Debug)]
pub struct RateLimitInfo {
    /// The bucket this budget belongs to.
    pub bucket: String,
    /// Time until the budget replenishes, in milliseconds.
    pub reset_after: u64,
    /// Calls left in the budget.
    pub remaining: u64,
}

impl RateLimitInfo {
    /// The replenish time in milliseconds.
    pub fn reset_after_millis(&self) -> (r: u64)
        ensures
            r == self.reset_after,
    {
        self.reset_after
    }
}

/// The value of the last bucket header, if any.
pub open spec fn last_bucket(hs: Seq<(String, String)>) -> Option<Seq<char>>
    decreases hs.len(),
{
    if hs.len() == 0 {
        None
    } else if hs.last().0@ == "x-ratelimit-bucket"@ {
        Some(hs.last().1@)
    } else {
        last_bucket(hs.drop_last())
    }
}

/// The value of the last remaining-count header that parses, if any.
pub open spec fn last_remaining(hs: Seq<(String, String)>) -> Option<u64>
    decreases hs.len(),
{
    if hs.len() == 0 {
        None
    } else if hs.last().0@ == "x-ratelimit-remaining"@ && spec_parse_u64(hs.last().1@) is Some {
        spec_parse_u64(hs.last().1@)
    } else {
        last_remaining(hs.drop_last())
    }
}

/// The value of the last reset-after header that parses, in milliseconds, if
/// any.
pub open spec fn last_reset_millis(hs: Seq<(String, String)>) -> Option<u64>
    decreases hs.len(),
{
    if hs.len() == 0 {
        None
    } else if hs.last().0@ == "x-ratelimit-reset-after"@ && spec_secs_to_millis(
        hs.last().1@,
    ) is Some {
        spec_secs_to_millis(hs.last().1@)
    } else {
        last_reset_millis(hs.drop_last())
    }
}

impl RateLimitInfo {
    /// Scans a header map for the three descriptor fields, latest occurrence
    /// winning, and returns a descriptor only when all three are present and
    /// parse; a value that fails to parse never displaces an earlier good
    /// one.
    pub fn from_headers(headers: &Vec<(String, String)>) -> (r: Option<RateLimitInfo>)
        ensures
            match r {
                Some(info) => {
                    &&& last_bucket(headers@) == Some(info.bucket@)
                    &&& last_remaining(headers@) == Some(info.remaining)
                    &&& last_reset_millis(headers@) == Some(info.reset_after)
                },
                None => last_bucket(headers@) is None || last_remaining(headers@) is None
                    || last_reset_millis(headers@) is None,
            },
    {
        let mut bucket: Option<String> = None;
        let mut remaining: Option<u64> = None;
        let mut reset_after: Option<u64> = None;
        let mut i: usize = 0;
        proof {
            assert(headers@.subrange(0, 0) =~= Seq::<(String, String)>::empty());
        }
        while i < headers.len()
            invariant
                i <= headers@.len(),
                match bucket {
                    Some(b) => last_bucket(headers@.subrange(0, i as int)) == Some(b@),
                    None => last_bucket(headers@.subrange(0, i as int)) is None,
                },
                remaining == last_remaining(headers@.subrange(0, i as int)),
                reset_after == last_reset_millis(headers@.subrange(0, i as int)),
            decreases headers@.len() - i,
        {
            let pair = &headers[i];
            proof {
                let pre = headers@.subrange(0, i as int);
                let post = headers@.subrange(0, i + 1 as int);
                assert(post.drop_last() =~= pre);
                assert(post.last() == headers@[i as int]);
            }
            if str_eq(pair.0.as_str(), "x-ratelimit-remaining") {
                if let Some(v) = parse_u64(pair.1.as_str()) {
                    remaining = Some(v);
                }
            } else if str_eq(pair.0.as_str(), "x-ratelimit-reset-after") {
                if let Some(v) = parse_secs_to_millis(pair.1.as_str()) {
                    reset_after = Some(v);
                }
            } else if str_eq(pair.0.as_str(), "x-ratelimit-bucket") {
                bucket = Some(pair.1.clone());
            }
            proof {
                reveal_strlit("x-ratelimit-remaining");
                reveal_strlit("x-ratelimit-reset-after");
                reveal_strlit("x-ratelimit-bucket");
                assert("x-ratelimit-remaining"@.len() == 21);
                assert("x-ratelimit-reset-after"@.len() == 23);
                assert("x-ratelimit-bucket"@.len() == 18);
            }
            i += 1;
        }
        proof {
            assert(headers@.subrange(0, headers@.len() as int) =~= headers@);
        }
        match (bucket, remaining, reset_after) {
            (Some(b), Some(rem), Some(reset)) => Some(
                RateLimitInfo { bucket: b, reset_after: reset, remaining: rem },
            ),
            _ => None,
        }
    }
}

/// A gateway call's result paired with the descriptor that came beside it.
#[derive(Debug)]
pub struct WithRateLimitInfo<T> {
    /// The descriptor, when the response carried one.  No descriptor means
    /// an unknown budget, never an exhausted one.
    pub rli: Option<RateLimitInfo>,
    /// The call's own result.
    pub item: T,
}

impl<T> WithRateLimitInfo<T> {
    /// Pairs a call result with the descriptor parsed from its response
    /// headers.
    pub fn new(item: T, rli: Option<RateLimitInfo>) -> (r: Self)
        ensures
            r.item == item,
            r.rli == rli,
    {
        WithRateLimitInfo { rli, item }
    }

    /// The pre-emptive throttle: when the descriptor reports an exhausted
    /// budget, the caller must pause this many milliseconds before its next
    /// call; with requests left, or with no descriptor, no pause is owed.
    pub fn sleep_time(&self) -> (r: Option<u64>)
        ensures
            match self.rli {
                Some(info) => r == (if info.remaining == 0 {
                    Some(info.reset_after)
                } else {
                    Option::<u64>::None
                }),
                None => r is None,
            },
    {
        if let Some(info) = &self.rli {
            if info.remaining == 0 {
                return Some(info.reset_after_millis());
            }
        }
        None
    }
}

} // verus!


