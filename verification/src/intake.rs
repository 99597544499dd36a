//! The new-submission intake reconciler's decisions.
//!
//! Intake diffs the source's queue against the record store: a submission
//! already recorded is resumed from whatever state its record reached, a new
//! one gets a fresh record first.  The gateway calls themselves, and the loop
//! over the queue, belong to the surrounding application; per-run failures
//! there never abort the batch.

use vstd::prelude::*;

use crate::models::{NewRun, Run, RunState, SRCState};
use crate::src::SRCRun;
use crate::store::RecordStore;

verus! {

/// Finds the record for a submission, creating it on first sighting.
///
/// A submission whose external id is already recorded gets its existing
/// record back, untouched: intake never creates a duplicate, and a record
/// stuck below `MessageCreated` is thereby picked up again and resumed.  A
/// genuinely new submission is recorded as not yet started, awaiting
/// verification.
pub fn intake_begin(store: &mut RecordStore, run: &SRCRun) -> (r: Run)
    requires
        old(store).wf(),
    ensures
        final(store).wf(),
        r.run_id@ == run.id@,
        (exists|i: int|
            0 <= i < old(store)@.len() && (#[trigger] old(store)@[i]).run_id@ == run.id@) ==> {
            &&& final(store)@ == old(store)@
            &&& 0 <= r.id < old(store)@.len()
            &&& old(store)@[r.id as int] == r
        },
        (forall|i: int|
            0 <= i < old(store)@.len() ==> (#[trigger] old(store)@[i]).run_id@ != run.id@) ==> {
            &&& r == (Run {
                id: old(store)@.len() as u64,
                submitted: run.submitted,
                thread_id: None,
                state: RunState::Unstarted,
                src_state: SRCState::New,
                run_id: run.id,
            })
            &&& final(store)@ == old(store)@.push(r)
        },
{
    match store.load_by_external_id(run.id.as_str()) {
        Some(rec) => rec,
        None => store.insert(
            NewRun {
                submitted: crate::models::clone_opt_string(&run.submitted),
                thread_id: None,
                state: RunState::Unstarted,
                src_state: SRCState::New,
                run_id: run.id.clone(),
            },
        ),
    }
}

} // verus!
