//! The known-run sweep reconciler's decisions.
//!
//! Sweep re-queries the source for every record whose side effects are done
//! but whose verification outcome is still pending, and drives the terminal
//! transition.  The source and gateway calls themselves belong to the
//! surrounding application; this module decides what each answer means for
//! the record.

use vstd::prelude::*;

use crate::error::{spec_src_error_not_found, DiscordError, SRCError};
use crate::lifecycle::finalized_run;
use crate::models::{run_wf, Resolution, Run, RunState, SRCState};
use crate::src::SRCRunStatus;
use crate::store::{state_matches, RecordStore};

verus! {

/// What the source said about a swept run, classified for control flow.
#[derive(Debug, PartialEq, Eq, Structural)]
pub enum SourceOutcome {
    /// The lookup succeeded and reported this verification status.
    Status(SRCState),
    /// The source reports the submission as no longer existing.
    NotFound,
    /// Any other source failure.
    Failed,
}

/// What sweep does with a record, given the source's answer.
#[derive(Clone, Copy, Debug, PartialEq, Eq, Structural)]
pub enum SweepStep {
    /// Leave the record unchanged: still pending, or a transient failure to
    /// retry next cycle.
    Skip,
    /// Rename and archive the thread for this resolved outcome, then commit
    /// the finalized record.
    Finalize(Resolution),
    /// The submission vanished: post a removal notice (best effort), force
    /// the rename and archive with the removed symbol, and finalize the
    /// record unconditionally.
    Removal,
}

/// Classifies a status lookup's result.  A not-found error is recognized by
/// its payload; every other error leaves the record for the next cycle.
pub fn classify_status_result(r: &Result<SRCRunStatus, SRCError>) -> (o: SourceOutcome)
    ensures
        match r {
            Ok(st) => o == SourceOutcome::Status(
                crate::models::spec_src_state_of_api_str(st.status@),
            ),
            Err(e) => o == (if spec_src_error_not_found(*e) {
                SourceOutcome::NotFound
            } else {
                SourceOutcome::Failed
            }),
        },
{
    match r {
        Ok(st) => SourceOutcome::Status(SRCState::from_src_api_string(st.status.as_str())),
        Err(e) => {
            if e.is_not_found() {
                SourceOutcome::NotFound
            } else {
                SourceOutcome::Failed
            }
        },
    }
}

/// Decides the sweep step for one candidate from the source's answer: a
/// still-new submission is skipped, a resolved one is finalized with its
/// outcome, a vanished one takes the removal path, and everything else is
/// left untouched for retry.
pub fn sweep_decide(outcome: &SourceOutcome) -> (s: SweepStep)
    ensures
        (s == SweepStep::Finalize(Resolution::Verified)) <==> *outcome == SourceOutcome::Status(
            SRCState::Verified,
        ),
        (s == SweepStep::Finalize(Resolution::Rejected)) <==> *outcome == SourceOutcome::Status(
            SRCState::Rejected,
        ),
        (s == SweepStep::Removal) <==> *outcome == SourceOutcome::NotFound,
        (s == SweepStep::Finalize(Resolution::Removed)) ==> false,
        (s == SweepStep::Skip) <==> (*outcome == SourceOutcome::Failed || *outcome
            == SourceOutcome::Status(SRCState::New) || *outcome == SourceOutcome::Status(
            SRCState::Unknown,
        ) || *outcome == SourceOutcome::Status(SRCState::Removed)),
{
    match outcome {
        SourceOutcome::Status(SRCState::Verified) => SweepStep::Finalize(Resolution::Verified),
        SourceOutcome::Status(SRCState::Rejected) => SweepStep::Finalize(Resolution::Rejected),
        SourceOutcome::NotFound => SweepStep::Removal,
        _ => SweepStep::Skip,
    }
}

/// Every element of a filtered sequence is an element of the original.
proof fn lemma_filter_members<A>(s: Seq<A>, pred: spec_fn(A) -> bool, i: int)
    requires
        0 <= i < s.filter(pred).len(),
    ensures
        s.contains(s.filter(pred)[i]),
    decreases s.len(),
{
    reveal(Seq::filter);
    if s.len() > 0 {
        let sub = s.drop_last().filter(pred);
        if i < sub.len() {
            lemma_filter_members(s.drop_last(), pred, i);
            let j = choose|j: int| 0 <= j < s.drop_last().len() && s.drop_last()[j] == sub[i];
            assert(s[j] == s.filter(pred)[i]);
        } else {
            assert(s[s.len() - 1] == s.filter(pred)[i]);
        }
    }
}

/// The sweep's candidate set: exactly the records at `MessageCreated` whose
/// outcome is still `New`, in store order.  A finalized record is never
/// selected, so sweeping twice in a row makes no further gateway call for
/// it.
pub fn sweep_candidates(store: &RecordStore) -> (r: Vec<Run>)
    requires
        store.wf(),
    ensures
        r@ == store@.filter(
            (|x: Run| state_matches(x, RunState::MessageCreated, SRCState::New)),
        ),
        forall|k: int|
            0 <= k < r@.len() ==> (#[trigger] r@[k]).state == RunState::MessageCreated
                && r@[k].src_state == SRCState::New,
        forall|k: int|
            0 <= k < r@.len() ==> run_wf(#[trigger] r@[k]) && 0 <= r@[k].id < store@.len()
                && store@[r@[k].id as int] == r@[k],
        forall|i: int|
            0 <= i < store@.len() && (#[trigger] store@[i]).state == RunState::MessageCreated
                && store@[i].src_state == SRCState::New ==> r@.contains(store@[i]),
{
    let r = store.load_where(RunState::MessageCreated, SRCState::New);
    proof {
        broadcast use vstd::seq_lib::group_filter_ensures;

        let pred = |x: Run| state_matches(x, RunState::MessageCreated, SRCState::New);
        assert(r@ == store@.filter(pred));
        assert(forall|k: int| 0 <= k < r@.len() ==> pred(#[trigger] store@.filter(pred)[k]));
        store.lemma_wf();
        assert forall|k: int|
            0 <= k < r@.len() implies run_wf(#[trigger] r@[k]) && 0 <= r@[k].id < store@.len()
            && store@[r@[k].id as int] == r@[k] by {
            lemma_filter_members(store@, pred, k);
            let j = choose|j: int| 0 <= j < store@.len() && store@[j] == r@[k];
            assert(run_wf(store@[j]) && store@[j].id == j);
        }
    }
    r
}

/// Applies the gateway's answer on the ordinary finalize path: on success
/// the finalized record is committed; on any failure — a vanished thread or
/// a transient fault alike — the record is left unchanged for the next
/// sweep.
pub fn sweep_finalize_result(rec: &Run, res: Resolution, gw: &Result<bool, DiscordError>) -> (r:
    Option<Run>)
    requires
        run_wf(*rec),
        rec.state == RunState::MessageCreated,
    ensures
        match gw {
            Ok(_) => r == Some(finalized_run(*rec, res)),
            Err(_) => r is None,
        },
        r is Some ==> run_wf(r.unwrap()),
{
    match gw {
        Ok(_) => {
            match crate::lifecycle::apply_finalized(rec, res) {
                Ok(out) => Some(out),
                Err(_) => None,
            }
        },
        Err(_) => None,
    }
}

/// Commits the removal path: the record is finalized with the removed
/// marker regardless of whether the removal notice posted and regardless of
/// the rename's own outcome, trading a possibly lost notice against
/// guaranteed forward progress.
pub fn sweep_removal_commit(
    rec: &Run,
    notice_posted: bool,
    gw: &Result<bool, DiscordError>,
) -> (r: Run)
    requires
        run_wf(*rec),
        rec.state == RunState::MessageCreated,
    ensures
        r == finalized_run(*rec, Resolution::Removed),
        run_wf(r),
{
    match crate::lifecycle::apply_finalized(rec, Resolution::Removed) {
        Ok(out) => out,
        Err(_) => Run {
            state: RunState::Finalized,
            src_state: SRCState::Removed,
            ..rec.clone()
        },
    }
}

} // verus!
