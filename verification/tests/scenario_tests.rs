use alttp_queue_bot::error::{DiscordError, SRCError};
use alttp_queue_bot::intake::intake_begin;
use alttp_queue_bot::lifecycle::{
    apply_message_created, apply_thread_created, intake_next, IntakeStep,
};
use alttp_queue_bot::message::resolution_symbol;
use alttp_queue_bot::models::{Resolution, RunState, SRCState};
use alttp_queue_bot::src::{PlayerEmbed, SRCRun, SRCRunStatus, Times};
use alttp_queue_bot::store::RecordStore;
use alttp_queue_bot::sweep::{
    classify_status_result, sweep_candidates, sweep_decide, sweep_finalize_result,
    sweep_removal_commit, SourceOutcome, SweepStep,
};

fn submission(id: &str) -> SRCRun {
    SRCRun {
        id: id.to_string(),
        weblink: format!("https://example.invalid/runs/{}", id),
        category: "cat1".to_string(),
        players: vec![PlayerEmbed::Guest { name: "alice".to_string() }],
        submitted: Some("2022-01-01T00:00:00Z".to_string()),
        times: Times { primary: "PT23M45S".to_string(), primary_centis: 142500 },
        values: vec![],
    }
}

/// Runs one intake pass for a submission, counting gateway calls; both calls
/// succeed.
fn intake_pass_all_success(store: &mut RecordStore, run: &SRCRun, gateway_calls: &mut u32) {
    let rec = intake_begin(store, run);
    let rec = match intake_next(&rec) {
        IntakeStep::CreateThread => {
            *gateway_calls += 1; // createThread succeeded
            let rec = apply_thread_created(&rec, "t-1".to_string());
            store.update(rec.clone());
            rec
        }
        _ => rec,
    };
    if let IntakeStep::CreateMessage = intake_next(&rec) {
        *gateway_calls += 1; // createMessage succeeded
        let rec = apply_message_created(&rec).unwrap();
        store.update(rec.clone());
    }
}

#[test]
fn intake_creates_record_and_drives_it_to_message_created() {
    // Scenario: the source lists one new submission, id "abc", not present
    // in the store.  One intake pass with both gateway calls succeeding.
    let mut store = RecordStore::new();
    let run = submission("abc");
    assert!(store.load_by_external_id("abc").is_none());

    let mut gateway_calls = 0;
    intake_pass_all_success(&mut store, &run, &mut gateway_calls);
    assert_eq!(gateway_calls, 2);

    let got = store.load_by_external_id("abc").unwrap();
    assert_eq!(got.state, RunState::MessageCreated);
    assert_eq!(got.src_state, SRCState::New);
    assert!(got.thread_id.is_some());
}

#[test]
fn intake_resumes_a_stuck_record() {
    // A record left at ThreadCreated by an earlier failure is picked up
    // again: intake must look existing non-terminal records up too.
    let mut store = RecordStore::new();
    let run = submission("abc");
    let rec = intake_begin(&mut store, &run);
    let rec = apply_thread_created(&rec, "t-1".to_string());
    store.update(rec.clone());
    // The message call failed that cycle; next cycle, same submission:
    let rec = intake_begin(&mut store, &run);
    assert_eq!(rec.state, RunState::ThreadCreated);
    assert_eq!(store.len(), 1); // no duplicate record
    assert_eq!(intake_next(&rec), IntakeStep::CreateMessage);
}

#[test]
fn sweep_finalizes_a_verified_run() {
    // Scenario: a known record at MessageCreated/New; the status lookup
    // answers Verified.  After one sweep pass the record is Finalized and
    // Verified, and renameAndArchive ran exactly once.
    let mut store = RecordStore::new();
    let mut gateway_calls = 0;
    intake_pass_all_success(&mut store, &submission("abc"), &mut gateway_calls);

    let mut rename_calls = 0;
    let candidates = sweep_candidates(&store);
    assert_eq!(candidates.len(), 1);
    for rec in &candidates {
        let status = Ok(SRCRunStatus { id: rec.run_id.clone(), status: "verified".to_string() });
        let outcome = classify_status_result(&status);
        assert_eq!(outcome, SourceOutcome::Status(SRCState::Verified));
        match sweep_decide(&outcome) {
            SweepStep::Finalize(res) => {
                assert_eq!(res, Resolution::Verified);
                rename_calls += 1; // renameAndArchive, succeeding
                let gw: Result<bool, DiscordError> = Ok(true);
                let updated = sweep_finalize_result(rec, res, &gw).unwrap();
                store.update(updated);
            }
            other => panic!("unexpected sweep step {:?}", other),
        }
    }
    assert_eq!(rename_calls, 1);

    let got = store.load_by_external_id("abc").unwrap();
    assert_eq!(got.state, RunState::Finalized);
    assert_eq!(got.src_state, SRCState::Verified);

    // Sweeping again selects nothing: no further gateway call for an
    // already-finalized record.
    assert!(sweep_candidates(&store).is_empty());
}

#[test]
fn sweep_takes_the_removal_path_on_a_vanished_run() {
    // Scenario: the status lookup fails with a not-found payload.  A removal
    // notice is attempted, renameAndArchive runs with the removed symbol,
    // and the record is finalized even though the notice failed.
    let mut store = RecordStore::new();
    let mut gateway_calls = 0;
    intake_pass_all_success(&mut store, &submission("abc"), &mut gateway_calls);

    let candidates = sweep_candidates(&store);
    assert_eq!(candidates.len(), 1);
    let rec = &candidates[0];

    let status: Result<SRCRunStatus, SRCError> =
        Err(SRCError::ApiError("The run abc could not be found.".to_string()));
    let outcome = classify_status_result(&status);
    assert_eq!(outcome, SourceOutcome::NotFound);
    assert_eq!(sweep_decide(&outcome), SweepStep::Removal);

    let mut notice_attempts = 0;
    notice_attempts += 1; // the notice message is attempted ...
    let notice_posted = false; // ... and fails

    let mut rename_calls = 0;
    rename_calls += 1; // renameAndArchive with the removed symbol
    assert_eq!(resolution_symbol(&Resolution::Removed), "[removed]");
    let gw: Result<bool, DiscordError> = Ok(true);
    let _ = &gw;

    let updated = sweep_removal_commit(rec, notice_posted, &gw);
    store.update(updated);

    assert_eq!(notice_attempts, 1);
    assert_eq!(rename_calls, 1);
    let got = store.load_by_external_id("abc").unwrap();
    assert_eq!(got.state, RunState::Finalized);
    assert_eq!(got.src_state, SRCState::Removed);
}

#[test]
fn failed_rename_leaves_the_record_for_retry() {
    // Scenario: renameAndArchive fails with an error that is not a
    // not-found.  The record stays at MessageCreated/New for the next
    // sweep.
    let mut store = RecordStore::new();
    let mut gateway_calls = 0;
    intake_pass_all_success(&mut store, &submission("abc"), &mut gateway_calls);

    let candidates = sweep_candidates(&store);
    let rec = &candidates[0];
    let status = Ok(SRCRunStatus { id: rec.run_id.clone(), status: "verified".to_string() });
    let outcome = classify_status_result(&status);
    assert_eq!(sweep_decide(&outcome), SweepStep::Finalize(Resolution::Verified));

    let gw: Result<bool, DiscordError> = Err(DiscordError::Other("boom".to_string()));
    assert!(sweep_finalize_result(rec, Resolution::Verified, &gw).is_none());

    let got = store.load_by_external_id("abc").unwrap();
    assert_eq!(got.state, RunState::MessageCreated);
    assert_eq!(got.src_state, SRCState::New);
}

#[test]
fn gateway_not_found_while_finalizing_also_leaves_the_record() {
    let mut store = RecordStore::new();
    let mut gateway_calls = 0;
    intake_pass_all_success(&mut store, &submission("abc"), &mut gateway_calls);
    let candidates = sweep_candidates(&store);
    let rec = &candidates[0];
    let gw: Result<bool, DiscordError> = Err(DiscordError::NotFound);
    assert!(gw.as_ref().err().unwrap().is_404());
    assert!(sweep_finalize_result(rec, Resolution::Rejected, &gw).is_none());
    let got = store.load_by_external_id("abc").unwrap();
    assert_eq!(got.state, RunState::MessageCreated);
}

#[test]
fn finalized_records_are_retained_but_retired() {
    // A finalized record is never deleted (it is the audit trail), but both
    // reconcilers leave it alone: intake makes no gateway call for it and
    // sweep never selects it.
    let mut store = RecordStore::new();
    let mut gateway_calls = 0;
    let run = submission("abc");
    intake_pass_all_success(&mut store, &run, &mut gateway_calls);
    let candidates = sweep_candidates(&store);
    let gw: Result<bool, DiscordError> = Ok(true);
    let updated = sweep_finalize_result(&candidates[0], Resolution::Verified, &gw).unwrap();
    store.update(updated);

    // The record is still there ...
    assert_eq!(store.len(), 1);
    let rec = intake_begin(&mut store, &run);
    assert_eq!(store.len(), 1);
    // ... but intake has nothing to do for it, and sweep skips it.
    assert_eq!(intake_next(&rec), IntakeStep::Done);
    assert!(sweep_candidates(&store).is_empty());
}

#[test]
fn still_new_and_failed_lookups_are_skipped() {
    let new_status = classify_status_result(&Ok(SRCRunStatus {
        id: "abc".to_string(),
        status: "new".to_string(),
    }));
    assert_eq!(sweep_decide(&new_status), SweepStep::Skip);

    let odd_status = classify_status_result(&Ok(SRCRunStatus {
        id: "abc".to_string(),
        status: "pondering".to_string(),
    }));
    assert_eq!(odd_status, SourceOutcome::Status(SRCState::Unknown));
    assert_eq!(sweep_decide(&odd_status), SweepStep::Skip);

    let failed = classify_status_result(&Err(SRCError::ApiError("500".to_string())));
    assert_eq!(failed, SourceOutcome::Failed);
    assert_eq!(sweep_decide(&failed), SweepStep::Skip);
}
