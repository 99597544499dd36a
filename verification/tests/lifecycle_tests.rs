use alttp_queue_bot::lifecycle::{
    apply_finalized, apply_message_created, apply_thread_created, intake_next, IntakeStep,
};
use alttp_queue_bot::models::{Resolution, Run, RunState, SRCState};

fn fresh_run(run_id: &str) -> Run {
    Run {
        id: 0,
        submitted: None,
        thread_id: None,
        state: RunState::Unstarted,
        src_state: SRCState::New,
        run_id: run_id.to_string(),
    }
}

#[test]
fn intake_next_walks_the_machine() {
    let mut rec = fresh_run("abc");
    assert_eq!(intake_next(&rec), IntakeStep::CreateThread);

    rec = apply_thread_created(&rec, "t-1".to_string());
    assert_eq!(rec.state, RunState::ThreadCreated);
    assert_eq!(rec.thread_id.as_deref(), Some("t-1"));
    assert_eq!(intake_next(&rec), IntakeStep::CreateMessage);

    rec = apply_message_created(&rec).unwrap();
    assert_eq!(rec.state, RunState::MessageCreated);
    assert_eq!(intake_next(&rec), IntakeStep::Done);

    rec = apply_finalized(&rec, Resolution::Verified).unwrap();
    assert_eq!(rec.state, RunState::Finalized);
    assert_eq!(rec.src_state, SRCState::Verified);
    assert_eq!(intake_next(&rec), IntakeStep::Done);
}

#[test]
fn thread_created_is_idempotent() {
    let rec = fresh_run("abc");
    let advanced = apply_thread_created(&rec, "t-1".to_string());
    // A second application with a different thread is a no-op.
    let again = apply_thread_created(&advanced, "t-2".to_string());
    assert_eq!(again.state, RunState::ThreadCreated);
    assert_eq!(again.thread_id.as_deref(), Some("t-1"));
    // And intake would not even make the gateway call.
    assert_ne!(intake_next(&advanced), IntakeStep::CreateThread);
}

#[test]
fn message_created_is_idempotent() {
    let rec = fresh_run("abc");
    let rec = apply_thread_created(&rec, "t-1".to_string());
    let rec = apply_message_created(&rec).unwrap();
    let again = apply_message_created(&rec).unwrap();
    assert_eq!(again.state, RunState::MessageCreated);
    assert_eq!(again.thread_id.as_deref(), Some("t-1"));
    assert_eq!(intake_next(&rec), IntakeStep::Done);
}

#[test]
fn local_state_never_regresses() {
    let rank = |s: &RunState| match s {
        RunState::Unstarted => 0,
        RunState::ThreadCreated => 1,
        RunState::MessageCreated => 2,
        RunState::Finalized => 3,
    };
    let mut rec = fresh_run("abc");
    let mut last = rank(&rec.state);
    rec = apply_thread_created(&rec, "t-1".to_string());
    assert!(rank(&rec.state) >= last);
    last = rank(&rec.state);
    rec = apply_thread_created(&rec, "t-9".to_string());
    assert!(rank(&rec.state) >= last);
    last = rank(&rec.state);
    rec = apply_message_created(&rec).unwrap();
    assert!(rank(&rec.state) >= last);
    last = rank(&rec.state);
    rec = apply_finalized(&rec, Resolution::Rejected).unwrap();
    assert!(rank(&rec.state) >= last);
    last = rank(&rec.state);
    rec = apply_finalized(&rec, Resolution::Verified).unwrap();
    assert!(rank(&rec.state) >= last);
    // Already finalized: unchanged, including the recorded outcome.
    assert_eq!(rec.src_state, SRCState::Rejected);
}

#[test]
fn thread_reference_tracks_local_state() {
    // The well-formedness invariant on every record the machine produces:
    // a thread reference exactly from ThreadCreated onward.
    let rec = fresh_run("abc");
    assert!(rec.thread_id.is_none());
    let rec = apply_thread_created(&rec, "t-1".to_string());
    assert!(rec.thread_id.is_some());
    let rec = apply_message_created(&rec).unwrap();
    assert!(rec.thread_id.is_some());
    let rec = apply_finalized(&rec, Resolution::Verified).unwrap();
    assert!(rec.thread_id.is_some());
}

#[test]
fn corrupt_record_is_refused_not_repaired() {
    let corrupt = Run {
        id: 7,
        submitted: None,
        thread_id: None,
        state: RunState::ThreadCreated,
        src_state: SRCState::New,
        run_id: "abc".to_string(),
    };
    assert_eq!(intake_next(&corrupt), IntakeStep::Corrupt);
    assert!(apply_message_created(&corrupt).is_err());
}

#[test]
fn message_before_thread_is_an_error() {
    let rec = fresh_run("abc");
    assert!(apply_message_created(&rec).is_err());
    assert!(apply_finalized(&rec, Resolution::Verified).is_err());
}
