use alttp_queue_bot::category_repository::CategoriesRepository;
use alttp_queue_bot::message::{
    build_run_message, pick_title, removal_notice, resolution_symbol, thread_title, title_at,
    TITLE_COUNT,
};
use alttp_queue_bot::models::Resolution;
use alttp_queue_bot::src::{PlayerEmbed, SRCRun, Times};

fn sample_run() -> SRCRun {
    SRCRun {
        id: "abc".to_string(),
        weblink: "https://example.invalid/runs/abc".to_string(),
        category: "c1".to_string(),
        players: vec![PlayerEmbed::Guest { name: "alice".to_string() }],
        submitted: None,
        times: Times { primary: "PT23M45S".to_string(), primary_centis: 142500 },
        values: vec![],
    }
}

fn empty_repo() -> CategoriesRepository {
    CategoriesRepository::new(vec![], vec![])
}

#[test]
fn titles_are_fixed() {
    assert_eq!(title_at(0), "New PB arrived!");
    assert_eq!(title_at(49), "someone's hogging all the PB paste");
}

#[test]
fn picked_title_is_one_of_the_fifty() {
    // Exercises the random draw: whatever comes out must be on the list.
    let picked = pick_title();
    let mut found = false;
    let mut i = 0;
    while i < TITLE_COUNT {
        if picked == title_at(i) {
            found = true;
        }
        i += 1;
    }
    assert!(found);
}

#[test]
fn thread_title_names_runner_category_and_time() {
    let repo = empty_repo();
    let run = sample_run();
    // No category in the repository: the category reads "Unknown".
    assert_eq!(thread_title(&repo, &run), "alice: Unknown in 23m45s");
}

#[test]
fn embed_carries_the_run_details() {
    let repo = empty_repo();
    let run = sample_run();
    let embed = build_run_message(&repo, &run);
    assert_eq!(embed.url, "https://example.invalid/runs/abc");
    assert_eq!(embed.runner, "alice");
    assert_eq!(embed.category, "Unknown");
    assert_eq!(embed.time_text, "23m45s");
    let mut found = false;
    let mut i = 0;
    while i < TITLE_COUNT {
        if embed.title == title_at(i) {
            found = true;
        }
        i += 1;
    }
    assert!(found);
}

#[test]
fn runner_without_players_reads_unknown() {
    let repo = empty_repo();
    let mut run = sample_run();
    run.players = vec![];
    let embed = build_run_message(&repo, &run);
    assert_eq!(embed.runner, "Unknown");
}

#[test]
fn user_player_uses_international_name() {
    let run = SRCRun {
        players: vec![PlayerEmbed::User { international: "bob".to_string() }],
        ..sample_run()
    };
    assert_eq!(run.player(), Some("bob"));
}

#[test]
fn each_resolution_has_its_own_symbol() {
    let v = resolution_symbol(&Resolution::Verified);
    let r = resolution_symbol(&Resolution::Rejected);
    let x = resolution_symbol(&Resolution::Removed);
    assert_eq!(v, "[verified]");
    assert_eq!(r, "[rejected]");
    assert_eq!(x, "[removed]");
    assert_ne!(v, r);
    assert_ne!(v, x);
    assert_ne!(r, x);
    assert!(!removal_notice().is_empty());
}
