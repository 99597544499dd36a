//! The run lifecycle state machine: pure transition logic with guards.
//!
//! Given a record and which step just succeeded, these functions compute the
//! next record.  They never regress a record, they are no-ops when the record
//! is already at or past the target state, and they keep every record well
//! formed (a thread reference exactly from `ThreadCreated` onward).  Each
//! caller commits the returned record to the store individually; no
//! transaction spans two steps.

use vstd::prelude::*;

use crate::error::BotError;
use crate::models::{resolution_state, run_state_rank, run_wf, Resolution, Run, RunState};

verus! {

/// What the intake reconciler should do next for a record.
#[derive(Clone, Copy, Debug, PartialEq, Eq, Structural)]
pub enum IntakeStep {
    /// The record has no thread yet: create one.
    CreateThread,
    /// The thread exists but the reference message does not: post it.
    CreateMessage,
    /// The record is at `MessageCreated` or past it: nothing to do, and in
    /// particular no gateway call is made.
    Done,
    /// The record claims a thread but carries no reference: a local
    /// invariant violation, to be reported and skipped, never repaired
    /// blindly.
    Corrupt,
}

/// Decides the next intake step for a record.  The decision is what keeps
/// re-processing idempotent: a record already past a step never triggers the
/// step's gateway call again.
pub fn intake_next(rec: &Run) -> (s: IntakeStep)
    ensures
        (s == IntakeStep::CreateThread) <==> rec.state == RunState::Unstarted,
        (s == IntakeStep::CreateMessage) <==> (rec.state == RunState::ThreadCreated
            && rec.thread_id is Some),
        (s == IntakeStep::Corrupt) <==> (rec.state == RunState::ThreadCreated
            && rec.thread_id is None),
        (s == IntakeStep::Done) <==> (rec.state == RunState::MessageCreated || rec.state
            == RunState::Finalized),
{
    match rec.state {
        RunState::Unstarted => IntakeStep::CreateThread,
        RunState::ThreadCreated => {
            if rec.thread_id.is_some() {
                IntakeStep::CreateMessage
            } else {
                IntakeStep::Corrupt
            }
        },
        RunState::MessageCreated => IntakeStep::Done,
        RunState::Finalized => IntakeStep::Done,
    }
}

/// Records that a thread was created for this run.
///
/// Advances to `ThreadCreated` only from `Unstarted`; on a record already
/// past `Unstarted` it returns the record unchanged (and the caller, per
/// `intake_next`, never made the gateway call in the first place).
pub fn apply_thread_created(rec: &Run, thread_id: String) -> (r: Run)
    ensures
        rec.state == RunState::Unstarted ==> r == (Run {
            state: RunState::ThreadCreated,
            thread_id: Some(thread_id),
            ..*rec
        }),
        rec.state != RunState::Unstarted ==> r == *rec,
        run_wf(*rec) ==> run_wf(r),
        run_state_rank(r.state) >= run_state_rank(rec.state),
        r.id == rec.id && r.run_id == rec.run_id && r.submitted == rec.submitted,
{
    match rec.state {
        RunState::Unstarted => Run {
            state: RunState::ThreadCreated,
            thread_id: Some(thread_id),
            ..rec.clone()
        },
        _ => rec.clone(),
    }
}

/// Records that the reference message was posted into the run's thread.
///
/// Advances to `MessageCreated` only from `ThreadCreated`, and only when the
/// thread reference is actually present: its absence is a local invariant
/// violation, reported as an error so the run is skipped this cycle rather
/// than retried blindly against corrupted state.  On a record already at or
/// past `MessageCreated` this is a no-op.
pub fn apply_message_created(rec: &Run) -> (res: Result<Run, BotError>)
    ensures
        match res {
            Ok(r) => {
                &&& (rec.state == RunState::ThreadCreated && rec.thread_id is Some) ==> r == (Run {
                    state: RunState::MessageCreated,
                    ..*rec
                })
                &&& (rec.state == RunState::MessageCreated || rec.state == RunState::Finalized)
                    ==> r == *rec
                &&& run_wf(*rec) ==> run_wf(r)
                &&& run_state_rank(r.state) >= run_state_rank(rec.state)
                &&& r.id == rec.id && r.run_id == rec.run_id && r.thread_id == rec.thread_id
            },
            Err(e) => e is InvalidState,
        },
        (res is Err) <==> (rec.state == RunState::Unstarted || (rec.state
            == RunState::ThreadCreated && rec.thread_id is None)),
{
    match rec.state {
        RunState::Unstarted => Err(
            BotError::InvalidState("message requested before any thread was created".to_owned()),
        ),
        RunState::ThreadCreated => {
            if rec.thread_id.is_some() {
                Ok(Run { state: RunState::MessageCreated, ..rec.clone() })
            } else {
                Err(
                    BotError::InvalidState(
                        "record claims a thread but carries no reference".to_owned(),
                    ),
                )
            }
        },
        _ => Ok(rec.clone()),
    }
}

/// The record a resolution leaves behind: finalized, with the source state
/// set to the resolved outcome.
pub open spec fn finalized_run(rec: Run, res: Resolution) -> Run {
    Run { state: RunState::Finalized, src_state: resolution_state(res), ..rec }
}

/// Records the terminal transition: the thread was renamed and archived for
/// a resolved outcome.
///
/// Advances to `Finalized` from any non-terminal state that owns a thread,
/// always pairing the move with the resolved source state.  A record already
/// finalized is returned unchanged; finalizing a record that never got a
/// thread is an invariant violation.
pub fn apply_finalized(rec: &Run, res: Resolution) -> (r: Result<Run, BotError>)
    ensures
        match r {
            Ok(out) => {
                &&& rec.state != RunState::Finalized ==> out == finalized_run(*rec, res)
                &&& rec.state == RunState::Finalized ==> out == *rec
                &&& run_wf(*rec) ==> run_wf(out)
                &&& run_state_rank(out.state) >= run_state_rank(rec.state)
                &&& out.id == rec.id && out.run_id == rec.run_id && out.thread_id == rec.thread_id
            },
            Err(e) => e is InvalidState,
        },
        (r is Err) <==> rec.state == RunState::Unstarted,
{
    match rec.state {
        RunState::Unstarted => Err(
            BotError::InvalidState("finalize requested before any thread was created".to_owned()),
        ),
        RunState::Finalized => Ok(rec.clone()),
        _ => Ok(
            Run { state: RunState::Finalized, src_state: res.to_src_state(), ..rec.clone() },
        ),
    }
}

} // verus!
