use alttp_queue_bot::models::{NewRun, Run, RunState, SRCState};
use alttp_queue_bot::store::RecordStore;
use alttp_queue_bot::sweep::sweep_candidates;

fn new_run(run_id: &str) -> NewRun {
    NewRun {
        submitted: Some("2022-01-01T00:00:00Z".to_string()),
        thread_id: None,
        state: RunState::Unstarted,
        src_state: SRCState::New,
        run_id: run_id.to_string(),
    }
}

#[test]
fn insert_assigns_sequential_ids() {
    let mut store = RecordStore::new();
    assert_eq!(store.len(), 0);
    let a = store.insert(new_run("a"));
    let b = store.insert(new_run("b"));
    assert_eq!(a.id, 0);
    assert_eq!(b.id, 1);
    assert_eq!(store.len(), 2);
}

#[test]
fn load_by_external_id_finds_only_what_exists() {
    let mut store = RecordStore::new();
    store.insert(new_run("a"));
    store.insert(new_run("b"));
    let got = store.load_by_external_id("b").unwrap();
    assert_eq!(got.run_id, "b");
    assert_eq!(got.id, 1);
    assert!(store.load_by_external_id("c").is_none());
}

#[test]
fn update_replaces_one_record() {
    let mut store = RecordStore::new();
    let a = store.insert(new_run("a"));
    store.insert(new_run("b"));
    let changed = Run {
        thread_id: Some("t-1".to_string()),
        state: RunState::ThreadCreated,
        ..a
    };
    store.update(changed);
    let got = store.load_by_external_id("a").unwrap();
    assert_eq!(got.state, RunState::ThreadCreated);
    assert_eq!(got.thread_id.as_deref(), Some("t-1"));
    let other = store.load_by_external_id("b").unwrap();
    assert_eq!(other.state, RunState::Unstarted);
}

#[test]
fn load_all_returns_store_order() {
    let mut store = RecordStore::new();
    store.insert(new_run("a"));
    store.insert(new_run("b"));
    let all = store.load_all();
    assert_eq!(all.len(), 2);
    assert_eq!(all[0].run_id, "a");
    assert_eq!(all[1].run_id, "b");
}

#[test]
fn load_where_filters_on_both_states() {
    let mut store = RecordStore::new();
    let a = store.insert(new_run("a"));
    store.insert(new_run("b"));
    store.update(Run {
        thread_id: Some("t-1".to_string()),
        state: RunState::MessageCreated,
        ..a
    });
    let pending = store.load_where(RunState::MessageCreated, SRCState::New);
    assert_eq!(pending.len(), 1);
    assert_eq!(pending[0].run_id, "a");
    let unstarted = store.load_where(RunState::Unstarted, SRCState::New);
    assert_eq!(unstarted.len(), 1);
    assert_eq!(unstarted[0].run_id, "b");
}

#[test]
fn finalized_records_are_never_sweep_candidates() {
    let mut store = RecordStore::new();
    let a = store.insert(new_run("a"));
    let b = store.insert(new_run("b"));
    store.update(Run {
        thread_id: Some("t-1".to_string()),
        state: RunState::MessageCreated,
        ..a
    });
    store.update(Run {
        thread_id: Some("t-2".to_string()),
        state: RunState::Finalized,
        src_state: SRCState::Verified,
        ..b
    });
    let candidates = sweep_candidates(&store);
    assert_eq!(candidates.len(), 1);
    assert_eq!(candidates[0].run_id, "a");
}
