//! The run record and its two state dimensions.
//!
//! A record mirrors one external submission.  `state` tracks the progress of
//! our own side effects (thread creation, reference message, final rename);
//! `src_state` is the last verification outcome we learned from the
//! submission source.  Both are persisted as canonical strings and validated
//! on read.

use vstd::prelude::*;

use crate::utils::str_eq;

verus! {

/// Progress of the bot's own side effects for one run.
///
/// It only ever advances forward: `Unstarted`, then `ThreadCreated`, then
/// `MessageCreated`, then `Finalized`.
#[derive(Clone, Copy, Debug, PartialEq, Eq, Structural)]
pub enum RunState {
    Unstarted,
    ThreadCreated,
    MessageCreated,
    Finalized,
}

/// Last known verification outcome of the submission on the source side.
///
/// `Unknown` is a sentinel for an unrecognized stored string; `Removed` marks
/// a submission that vanished from the source before it was verified.
#[derive(Clone, Copy, Debug, PartialEq, Eq, Structural)]
pub enum SRCState {
    New,
    Verified,
    Rejected,
    Removed,
    Unknown,
}

/// Position of a local state on the forward-only progress scale.
pub open spec fn run_state_rank(s: RunState) -> nat {
    match s {
        RunState::Unstarted => 0,
        RunState::ThreadCreated => 1,
        RunState::MessageCreated => 2,
        RunState::Finalized => 3,
    }
}

/// A terminal verification outcome: what a finalized thread is renamed for.
#[derive(Clone, Copy, Debug, PartialEq, Eq, Structural)]
pub enum Resolution {
    Verified,
    Rejected,
    Removed,
}

/// The source state that recording a resolution leaves behind.
pub open spec fn resolution_state(r: Resolution) -> SRCState {
    match r {
        Resolution::Verified => SRCState::Verified,
        Resolution::Rejected => SRCState::Rejected,
        Resolution::Removed => SRCState::Removed,
    }
}

impl Resolution {
    /// The source state this resolution records.
    pub fn to_src_state(&self) -> (r: SRCState)
        ensures
            r == resolution_state(*self),
    {
        match self {
            Resolution::Verified => SRCState::Verified,
            Resolution::Rejected => SRCState::Rejected,
            Resolution::Removed => SRCState::Removed,
        }
    }
}

/// One run record, as held by the record store.
pub struct Run {
    /// Store-assigned identity; immutable once inserted.
    pub id: u64,
    /// Opaque timestamp string from the source; informational only.
    pub submitted: Option<String>,
    /// The chat thread created for this run, once there is one.
    pub thread_id: Option<String>,
    /// Progress of our own side effects.
    pub state: RunState,
    /// Last known verification outcome.
    pub src_state: SRCState,
    /// The run's identity according to the submission source; never changes.
    pub run_id: String,
}

/// A record is well formed when it carries a thread reference exactly from
/// `ThreadCreated` onward.
pub open spec fn run_wf(r: Run) -> bool {
    r.thread_id is Some <==> r.state != RunState::Unstarted
}

impl Clone for Run {
    fn clone(&self) -> (r: Self)
        ensures
            r == *self,
    {
        Run {
            id: self.id,
            submitted: clone_opt_string(&self.submitted),
            thread_id: clone_opt_string(&self.thread_id),
            state: self.state,
            src_state: self.src_state,
            run_id: self.run_id.clone(),
        }
    }
}

/// Clones an optional string, preserving its value.
pub fn clone_opt_string(s: &Option<String>) -> (r: Option<String>)
    ensures
        r == *s,
{
    match s {
        Some(v) => Some(v.clone()),
        None => None,
    }
}

/// The payload of a store insert: a record without its store identity.
pub struct NewRun {
    pub submitted: Option<String>,
    pub thread_id: Option<String>,
    pub state: RunState,
    pub src_state: SRCState,
    pub run_id: String,
}

/// Canonical stored string for a local state.
pub open spec fn spec_run_state_str(s: RunState) -> Seq<char> {
    match s {
        RunState::Unstarted => "None"@,
        RunState::ThreadCreated => "ThreadCreated"@,
        RunState::MessageCreated => "MessageCreated"@,
        RunState::Finalized => "Finalized"@,
    }
}

/// Canonical stored string for a source state.
pub open spec fn spec_src_state_str(s: SRCState) -> Seq<char> {
    match s {
        SRCState::New => "New"@,
        SRCState::Verified => "Verified"@,
        SRCState::Rejected => "Rejected"@,
        SRCState::Removed => "Removed"@,
        SRCState::Unknown => "Unknown"@,
    }
}

impl RunState {
    /// Encodes the state as its canonical stored string.
    pub fn to_stored_string(&self) -> (r: String)
        ensures
            r@ == spec_run_state_str(*self),
    {
        match self {
            RunState::Unstarted => "None".to_owned(),
            RunState::ThreadCreated => "ThreadCreated".to_owned(),
            RunState::MessageCreated => "MessageCreated".to_owned(),
            RunState::Finalized => "Finalized".to_owned(),
        }
    }

    /// Decodes a stored string, refusing unrecognized values rather than
    /// defaulting silently.
    pub fn from_stored_string(s: &str) -> (r: Option<RunState>)
        ensures
            r == spec_run_state_of_str(s@),
    {
        if str_eq(s, "None") {
            Some(RunState::Unstarted)
        } else if str_eq(s, "ThreadCreated") {
            Some(RunState::ThreadCreated)
        } else if str_eq(s, "MessageCreated") {
            Some(RunState::MessageCreated)
        } else if str_eq(s, "Finalized") {
            Some(RunState::Finalized)
        } else {
            None
        }
    }
}

/// The local state a stored string decodes to, if it is recognized.
pub open spec fn spec_run_state_of_str(s: Seq<char>) -> Option<RunState> {
    if s == "None"@ {
        Some(RunState::Unstarted)
    } else if s == "ThreadCreated"@ {
        Some(RunState::ThreadCreated)
    } else if s == "MessageCreated"@ {
        Some(RunState::MessageCreated)
    } else if s == "Finalized"@ {
        Some(RunState::Finalized)
    } else {
        None
    }
}

/// Decoding a canonical stored string returns the state it encodes: the
/// stored form loses nothing.
pub proof fn lemma_run_state_round_trip(s: RunState)
    ensures
        spec_run_state_of_str(spec_run_state_str(s)) == Some(s),
{
    reveal_strlit("None");
    reveal_strlit("ThreadCreated");
    reveal_strlit("MessageCreated");
    reveal_strlit("Finalized");
    assert("None"@.len() == 4);
    assert("ThreadCreated"@.len() == 13);
    assert("MessageCreated"@.len() == 14);
    assert("Finalized"@.len() == 9);
    match s {
        RunState::Unstarted => {
            assert(spec_run_state_of_str("None"@) == Some(RunState::Unstarted));
        },
        RunState::ThreadCreated => {
            assert("ThreadCreated"@ != "None"@);
            assert(spec_run_state_of_str("ThreadCreated"@) == Some(RunState::ThreadCreated));
        },
        RunState::MessageCreated => {
            assert("MessageCreated"@ != "None"@);
            assert("MessageCreated"@ != "ThreadCreated"@);
            assert(spec_run_state_of_str("MessageCreated"@) == Some(RunState::MessageCreated));
        },
        RunState::Finalized => {
            assert("Finalized"@ != "None"@);
            assert("Finalized"@ != "ThreadCreated"@);
            assert("Finalized"@ != "MessageCreated"@);
            assert(spec_run_state_of_str("Finalized"@) == Some(RunState::Finalized));
        },
    }
}

impl SRCState {
    /// Encodes the state as its canonical stored string.
    pub fn to_stored_string(&self) -> (r: String)
        ensures
            r@ == spec_src_state_str(*self),
    {
        match self {
            SRCState::New => "New".to_owned(),
            SRCState::Verified => "Verified".to_owned(),
            SRCState::Rejected => "Rejected".to_owned(),
            SRCState::Removed => "Removed".to_owned(),
            SRCState::Unknown => "Unknown".to_owned(),
        }
    }

    /// Decodes a stored string; an unrecognized value becomes the `Unknown`
    /// sentinel, never a silent default onto a real state.
    pub fn from_stored_string(s: &str) -> (r: SRCState)
        ensures
            r == spec_src_state_of_str(s@),
    {
        if str_eq(s, "New") {
            SRCState::New
        } else if str_eq(s, "Verified") {
            SRCState::Verified
        } else if str_eq(s, "Rejected") {
            SRCState::Rejected
        } else if str_eq(s, "Removed") {
            SRCState::Removed
        } else {
            SRCState::Unknown
        }
    }

    /// Classifies a status string as the source's API reports it.
    pub fn from_src_api_string(s: &str) -> (r: SRCState)
        ensures
            r == spec_src_state_of_api_str(s@),
    {
        if str_eq(s, "new") {
            SRCState::New
        } else if str_eq(s, "verified") {
            SRCState::Verified
        } else if str_eq(s, "rejected") {
            SRCState::Rejected
        } else {
            SRCState::Unknown
        }
    }
}

/// The source state a stored string decodes to.
pub open spec fn spec_src_state_of_str(s: Seq<char>) -> SRCState {
    if s == "New"@ {
        SRCState::New
    } else if s == "Verified"@ {
        SRCState::Verified
    } else if s == "Rejected"@ {
        SRCState::Rejected
    } else if s == "Removed"@ {
        SRCState::Removed
    } else {
        SRCState::Unknown
    }
}

/// The source state a status string of the source's API maps to.
pub open spec fn spec_src_state_of_api_str(s: Seq<char>) -> SRCState {
    if s == "new"@ {
        SRCState::New
    } else if s == "verified"@ {
        SRCState::Verified
    } else if s == "rejected"@ {
        SRCState::Rejected
    } else {
        SRCState::Unknown
    }
}

/// Decoding a canonical stored string returns the state it encodes.
pub proof fn lemma_src_state_round_trip(s: SRCState)
    ensures
        spec_src_state_of_str(spec_src_state_str(s)) == s,
{
    reveal_strlit("New");
    reveal_strlit("Verified");
    reveal_strlit("Rejected");
    reveal_strlit("Removed");
    reveal_strlit("Unknown");
    assert("New"@.len() == 3);
    assert("Verified"@.len() == 8);
    assert("Rejected"@.len() == 8);
    assert("Removed"@.len() == 7);
    assert("Unknown"@.len() == 7);
    assert("Rejected"@[0] == 'R' && "Verified"@[0] == 'V');
    assert("Unknown"@[0] == 'U' && "Removed"@[0] == 'R');
    match s {
        SRCState::New => {
            assert(spec_src_state_of_str("New"@) == SRCState::New);
        },
        SRCState::Verified => {
            assert(spec_src_state_of_str("Verified"@) == SRCState::Verified);
        },
        SRCState::Rejected => {
            assert("Rejected"@ != "Verified"@);
            assert(spec_src_state_of_str("Rejected"@) == SRCState::Rejected);
        },
        SRCState::Removed => {
            assert(spec_src_state_of_str("Removed"@) == SRCState::Removed);
        },
        SRCState::Unknown => {
            assert("Unknown"@ != "Removed"@);
            assert(spec_src_state_of_str("Unknown"@) == SRCState::Unknown);
        },
    }
}

/// The persisted, string-backed form of a record: what the record table's
/// storage engine reads and writes.
pub struct UpdateRun {
    pub id: u64,
    pub submitted: Option<String>,
    pub thread_id: Option<String>,
    pub state: String,
    pub src_state: String,
    pub run_id: String,
}

impl UpdateRun {
    /// Encodes a record for storage, with both states as their canonical
    /// strings.
    pub fn from_run(r: Run) -> (u: UpdateRun)
        ensures
            u.id == r.id,
            u.submitted == r.submitted,
            u.thread_id == r.thread_id,
            u.state@ == spec_run_state_str(r.state),
            u.src_state@ == spec_src_state_str(r.src_state),
            u.run_id == r.run_id,
    {
        UpdateRun {
            id: r.id,
            submitted: r.submitted,
            thread_id: r.thread_id,
            state: r.state.to_stored_string(),
            src_state: r.src_state.to_stored_string(),
            run_id: r.run_id,
        }
    }
}

/// Decodes a stored record.  An unrecognized local state is refused (the
/// record is corrupt); an unrecognized source state becomes the `Unknown`
/// sentinel.
pub fn run_from_stored(u: UpdateRun) -> (r: Option<Run>)
    ensures
        match spec_run_state_of_str(u.state@) {
            Some(state) => r == Some(
                Run {
                    id: u.id,
                    submitted: u.submitted,
                    thread_id: u.thread_id,
                    state,
                    src_state: spec_src_state_of_str(u.src_state@),
                    run_id: u.run_id,
                },
            ),
            None => r is None,
        },
{
    let state = match RunState::from_stored_string(u.state.as_str()) {
        Some(s) => s,
        None => {
            return None;
        },
    };
    let src_state = SRCState::from_stored_string(u.src_state.as_str());
    Some(
        Run {
            id: u.id,
            submitted: u.submitted,
            thread_id: u.thread_id,
            state,
            src_state,
            run_id: u.run_id,
        },
    )
}

} // verus!
