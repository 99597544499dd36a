//! The closed set of error kinds the reconcilers act on.
//!
//! Each collaborator's failures arrive here as plain data; the predicates on
//! them (`is_404`, `is_not_found`, the retry-after of a rate limit) are what
//! the reconcilers branch on.

use vstd::prelude::*;

verus! {

/// A caller handed the gateway wrapper something it cannot use.
#[derive(Debug)]
pub enum InvalidInputError {
    ThatsNotAThread,
}

/// A failure of the notification gateway, classified for control flow.
#[derive(Debug)]
pub enum DiscordError {
    /// The gateway refused the call for now; retry after this many
    /// milliseconds.
    RateLimited { retry_after_millis: u64 },
    /// The addressed thread or channel does not exist.
    NotFound,
    /// The request was malformed (an oversized title, say); likely a bug.
    ValidationError(String),
    /// An otherwise valid response whose body could not be decoded.
    DeserializeBodyError(String),
    /// Bad input detected before the call was made.
    InvalidInput(InvalidInputError),
    /// Any other transport or server failure.
    Other(String),
}

impl DiscordError {
    /// True exactly for the not-found failure: a vanished thread is terminal,
    /// not transient.
    pub fn is_404(&self) -> (r: bool)
        ensures
            r == (*self is NotFound),
    {
        match self {
            DiscordError::NotFound => true,
            _ => false,
        }
    }

    /// The server-specified pause, when the failure is a rate limit.
    pub fn retry_after(&self) -> (r: Option<u64>)
        ensures
            match *self {
                DiscordError::RateLimited { retry_after_millis } => r == Some(
                    retry_after_millis,
                ),
                _ => r is None,
            },
    {
        match self {
            DiscordError::RateLimited { retry_after_millis } => Some(*retry_after_millis),
            _ => None,
        }
    }
}

/// `n` occurs in `h` starting at position `i`.
pub open spec fn seq_contains_at(h: Seq<char>, n: Seq<char>, i: int) -> bool {
    0 <= i && i + n.len() <= h.len() && h.subrange(i, i + n.len() as int) == n
}

/// `n` occurs somewhere in `h`.
pub open spec fn seq_contains(h: Seq<char>, n: Seq<char>) -> bool {
    exists|i: int| seq_contains_at(h, n, i)
}

/// Character-wise substring search.
pub fn str_contains(h: &str, n: &str) -> (r: bool)
    ensures
        r == seq_contains(h@, n@),
{
    let h_len = h.unicode_len();
    let n_len = n.unicode_len();
    if n_len > h_len {
        assert(forall|i: int| !seq_contains_at(h@, n@, i));
        return false;
    }
    if n_len == 0 {
        proof {
            assert(h@.subrange(0, 0) =~= n@);
            assert(seq_contains_at(h@, n@, 0));
        }
        return true;
    }
    let mut i: usize = 0;
    while i <= h_len - n_len
        invariant
            h_len == h@.len(),
            n_len == n@.len(),
            0 < n_len <= h_len,
            i <= h_len - n_len + 1,
            forall|k: int| 0 <= k < i ==> !seq_contains_at(h@, n@, k),
        decreases h_len - i,
    {
        let mut j: usize = 0;
        let mut matched = true;
        while matched && j < n_len
            invariant
                h_len == h@.len(),
                n_len == n@.len(),
                i + n_len <= h_len,
                j <= n_len,
                matched ==> forall|m: int| 0 <= m < j ==> h@[i + m] == n@[m],
                !matched ==> !seq_contains_at(h@, n@, i as int),
            decreases n_len - j, (if matched { 1int } else { 0int }),
        {
            if h.get_char(i + j) != n.get_char(j) {
                matched = false;
                proof {
                    assert(h@.subrange(i as int, i + n@.len())[j as int] == h@[i + j]);
                    assert(h@.subrange(i as int, i + n@.len()) != n@);
                }
            } else {
                j += 1;
            }
        }
        if matched {
            proof {
                assert(h@.subrange(i as int, i + n@.len()) =~= n@) by {
                    assert(forall|m: int|
                        0 <= m < n@.len() ==> #[trigger] h@.subrange(i as int, i + n@.len())[m]
                            == h@[i + m]);
                }
                assert(seq_contains_at(h@, n@, i as int));
            }
            return true;
        }
        i += 1;
    }
    proof {
        assert forall|k: int| !seq_contains_at(h@, n@, k) by {
            if 0 <= k && k + n@.len() <= h@.len() {
                assert(k < i);
            }
        }
    }
    false
}

/// A failure of the submission source.
#[derive(Debug)]
pub enum SRCError {
    /// The source's API answered with an error; the payload text is kept so
    /// a removed submission can be told apart from a transient fault.
    ApiError(String),
    /// The query could not even be built.
    QueryBuildError(String),
}

/// The payload text that marks a submission as gone from the source.  The
/// exact matching rule mirrors the source's current error format.
pub open spec fn spec_not_found_marker() -> Seq<char> {
    "could not be found"@
}

/// Whether a source error reports the submission as no longer existing.
pub open spec fn spec_src_error_not_found(e: SRCError) -> bool {
    match e {
        SRCError::ApiError(msg) => seq_contains(msg@, spec_not_found_marker()),
        SRCError::QueryBuildError(_) => false,
    }
}

impl SRCError {
    /// Detects the removal condition by inspecting the error payload.
    pub fn is_not_found(&self) -> (r: bool)
        ensures
            r == spec_src_error_not_found(*self),
    {
        match self {
            SRCError::ApiError(msg) => str_contains(msg.as_str(), "could not be found"),
            SRCError::QueryBuildError(_) => false,
        }
    }
}

/// The umbrella error the reconcilers report: one tag per collaborator, plus
/// the detected local invariant violation.
#[derive(Debug)]
pub enum BotError {
    /// The record store failed an operation.
    DatabaseError(String),
    /// The submission source failed.
    SRCError(SRCError),
    /// The notification gateway failed.
    DiscordError(DiscordError),
    /// A record was found in a state the machine's guards refuse.
    InvalidState(String),
}

impl From<SRCError> for BotError {
    fn from(e: SRCError) -> (r: Self) {
        BotError::SRCError(e)
    }
}

impl vstd::std_specs::convert::FromSpecImpl<SRCError> for BotError {
    open spec fn obeys_from_spec() -> bool {
        true
    }

    open spec fn from_spec(e: SRCError) -> BotError {
        BotError::SRCError(e)
    }
}

impl From<DiscordError> for BotError {
    fn from(e: DiscordError) -> (r: Self) {
        BotError::DiscordError(e)
    }
}

impl vstd::std_specs::convert::FromSpecImpl<DiscordError> for BotError {
    open spec fn obeys_from_spec() -> bool {
        true
    }

    open spec fn from_spec(e: DiscordError) -> BotError {
        BotError::DiscordError(e)
    }
}

impl BotError {
    /// The reactive throttle decision: how long to sleep before abandoning
    /// the current run, when the failure was a gateway rate limit; no sleep
    /// otherwise.
    pub fn rate_limit_sleep_millis(&self) -> (r: Option<u64>)
        ensures
            match *self {
                BotError::DiscordError(
                    DiscordError::RateLimited { retry_after_millis },
                ) => r == Some(retry_after_millis),
                _ => r is None,
            },
    {
        match self {
            BotError::DiscordError(e) => e.retry_after(),
            _ => None,
        }
    }
}

} // verus!
