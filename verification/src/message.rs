//! Text shown in the channel: the announcement embed for a new run, the
//! thread title, and the symbols a finalized thread is renamed with.

use vstd::prelude::*;

use crate::category_repository::{spec_category_name, CategoriesRepository};
use crate::models::Resolution;
use crate::src::{spec_player_name, SRCRun};
use crate::utils::{format_hms, spec_format_hms};

verus! {

/// How many announcement titles there are to pick from.
pub const TITLE_COUNT: u64 = 50;

/// The announcement title with the given index.
pub open spec fn spec_title(i: int) -> Seq<char> {
    if i == 0 {
        "New PB arrived!"@
    } else if i == 1 {
        "Anotha one"@
    } else if i == 2 {
        "PB ALERT"@
    } else if i == 3 {
        "Meowski get on this one"@
    } else if i == 4 {
        "gaming?!"@
    } else if i == 5 {
        "someone was eating their wheaties"@
    } else if i == 6 {
        "get a load of this guy"@
    } else if i == 7 {
        "of all the runs I've seen..."@
    } else if i == 8 {
        "an ostentatious display of skill"@
    } else if i == 9 {
        "absolutely cracked"@
    } else if i == 10 {
        "this run is built different"@
    } else if i == 11 {
        "speed incarnate"@
    } else if i == 12 {
        "a true gamer moment"@
    } else if i == 13 {
        "unreal gaming skills"@
    } else if i == 14 {
        "this is peak performance"@
    } else if i == 15 {
        "legendary run"@
    } else if i == 16 {
        "a masterpiece of speedrunning"@
    } else if i == 17 {
        "this run deserves a medal"@
    } else if i == 18 {
        "phenomenal execution"@
    } else if i == 19 {
        "a run for the ages"@
    } else if i == 20 {
        "next-level gaming"@
    } else if i == 21 {
        "a true display of mastery"@
    } else if i == 22 {
        "this run is fire"@
    } else if i == 23 {
        "insane gameplay"@
    } else if i == 24 {
        "elite speedrunning"@
    } else if i == 25 {
        "this run is art"@
    } else if i == 26 {
        "unbelievable performance"@
    } else if i == 27 {
        "a run to remember"@
    } else if i == 28 {
        "probably spliced"@
    } else if i == 29 {
        "always check helma/arrghus!"@
    } else if i == 30 {
        "some people have all the luck!"@
    } else if i == 31 {
        "how many capespins in this one?"@
    } else if i == 32 {
        "doomtaDisdainfulDonny"@
    } else if i == 33 {
        "swifARTISTE"@
    } else if i == 34 {
        "will this one start a fight?"@
    } else if i == 35 {
        "is this WR pace?"@
    } else if i == 36 {
        "did someone say 'poggers'?"@
    } else if i == 37 {
        "this run is bussin' fr fr"@
    } else if i == 38 {
        "a certified hood classic"@
    } else if i == 39 {
        "MY GOAT"@
    } else if i == 40 {
        "absolutely no cap"@
    } else if i == 41 {
        "this run is sus"@
    } else if i == 42 {
        "a true sigma grindset"@
    } else if i == 43 {
        "chef's kiss"@
    } else if i == 44 {
        "GoatEmotey"@
    } else if i == 45 {
        "superm209Eyes"@
    } else if i == 46 {
        "now THIS is a 24/7 Andy Watch Party"@
    } else if i == 47 {
        "its lmos league"@
    } else if i == 48 {
        "don't forget to show your keybinds!"@
    } else {
        "someone's hogging all the PB paste"@
    }
}

/// The announcement title with the given index.
pub fn title_at(i: u64) -> (t: &'static str)
    requires
        i < TITLE_COUNT,
    ensures
        t@ == spec_title(i as int),
{
    if i == 0 {
        "New PB arrived!"
    } else if i == 1 {
        "Anotha one"
    } else if i == 2 {
        "PB ALERT"
    } else if i == 3 {
        "Meowski get on this one"
    } else if i == 4 {
        "gaming?!"
    } else if i == 5 {
        "someone was eating their wheaties"
    } else if i == 6 {
        "get a load of this guy"
    } else if i == 7 {
        "of all the runs I've seen..."
    } else if i == 8 {
        "an ostentatious display of skill"
    } else if i == 9 {
        "absolutely cracked"
    } else if i == 10 {
        "this run is built different"
    } else if i == 11 {
        "speed incarnate"
    } else if i == 12 {
        "a true gamer moment"
    } else if i == 13 {
        "unreal gaming skills"
    } else if i == 14 {
        "this is peak performance"
    } else if i == 15 {
        "legendary run"
    } else if i == 16 {
        "a masterpiece of speedrunning"
    } else if i == 17 {
        "this run deserves a medal"
    } else if i == 18 {
        "phenomenal execution"
    } else if i == 19 {
        "a run for the ages"
    } else if i == 20 {
        "next-level gaming"
    } else if i == 21 {
        "a true display of mastery"
    } else if i == 22 {
        "this run is fire"
    } else if i == 23 {
        "insane gameplay"
    } else if i == 24 {
        "elite speedrunning"
    } else if i == 25 {
        "this run is art"
    } else if i == 26 {
        "unbelievable performance"
    } else if i == 27 {
        "a run to remember"
    } else if i == 28 {
        "probably spliced"
    } else if i == 29 {
        "always check helma/arrghus!"
    } else if i == 30 {
        "some people have all the luck!"
    } else if i == 31 {
        "how many capespins in this one?"
    } else if i == 32 {
        "doomtaDisdainfulDonny"
    } else if i == 33 {
        "swifARTISTE"
    } else if i == 34 {
        "will this one start a fight?"
    } else if i == 35 {
        "is this WR pace?"
    } else if i == 36 {
        "did someone say 'poggers'?"
    } else if i == 37 {
        "this run is bussin' fr fr"
    } else if i == 38 {
        "a certified hood classic"
    } else if i == 39 {
        "MY GOAT"
    } else if i == 40 {
        "absolutely no cap"
    } else if i == 41 {
        "this run is sus"
    } else if i == 42 {
        "a true sigma grindset"
    } else if i == 43 {
        "chef's kiss"
    } else if i == 44 {
        "GoatEmotey"
    } else if i == 45 {
        "superm209Eyes"
    } else if i == 46 {
        "now THIS is a 24/7 Andy Watch Party"
    } else if i == 47 {
        "its lmos league"
    } else if i == 48 {
        "don't forget to show your keybinds!"
    } else {
        "someone's hogging all the PB paste"
    }
}

/// Relies on rand::random: draws a value of the type from the thread-local
/// generator.  Nothing is promised of the value.
pub assume_specification<T>[ rand::random::<T> ]() -> (r: T)
    where
        rand::distr::StandardUniform: rand::distr::Distribution<T>,
;

/// Picks one of the announcement titles at random.
pub fn pick_title() -> (t: String)
    ensures
        exists|i: int| 0 <= i < TITLE_COUNT && t@ == spec_title(i),
{
    let r: u64 = rand::random();
    let i = r % TITLE_COUNT;
    let t = title_at(i);
    proof {
        assert(0 <= (i as int) && (i as int) < TITLE_COUNT && t@ == spec_title(i as int));
    }
    t.to_owned()
}

/// The display name shown for a run's submitter.
pub open spec fn spec_runner_name(run: SRCRun) -> Seq<char> {
    if run.players@.len() > 0 {
        spec_player_name(run.players@[0])
    } else {
        "Unknown"@
    }
}

/// The display name shown for a run's category.
pub open spec fn spec_category_text(repo: CategoriesRepository, run: SRCRun) -> Seq<char> {
    match spec_category_name(repo, run.category@, run.values@) {
        Some(name) => name,
        None => "Unknown"@,
    }
}

/// The title a run's thread is created with: submitter, category and time.
pub open spec fn spec_thread_title(repo: CategoriesRepository, run: SRCRun) -> Seq<char> {
    spec_runner_name(run) + ": "@ + spec_category_text(repo, run) + " in "@ + spec_format_hms(
        run.times.primary_centis as nat,
    )
}

/// Builds the title for a run's thread from its metadata.
pub fn thread_title(repo: &CategoriesRepository, run: &SRCRun) -> (t: String)
    ensures
        t@ == spec_thread_title(*repo, *run),
{
    let mut out = match run.player() {
        Some(n) => n.to_owned(),
        None => "Unknown".to_owned(),
    };
    out.append(": ");
    match repo.category_name_from_run(run) {
        Some(name) => out.append(name.as_str()),
        None => out.append("Unknown"),
    };
    out.append(" in ");
    let time = format_hms(run.times.primary_centis);
    out.append(time.as_str());
    proof {
        assert(out@ =~= spec_thread_title(*repo, *run));
    }
    out
}

/// The announcement posted for a new run: a title, the run's link, and the
/// submitter, category and time fields.
#[derive(Debug)]
pub struct RunEmbed {
    pub title: String,
    pub url: String,
    pub runner: String,
    pub category: String,
    pub time_text: String,
}

/// Builds the announcement for a run: a randomly picked title, and fields
/// naming the submitter, the category and the primary time, with the run's
/// link attached.
pub fn build_run_message(repo: &CategoriesRepository, run: &SRCRun) -> (e: RunEmbed)
    ensures
        exists|i: int| 0 <= i < TITLE_COUNT && e.title@ == spec_title(i),
        e.url == run.weblink,
        e.runner@ == spec_runner_name(*run),
        e.category@ == spec_category_text(*repo, *run),
        e.time_text@ == spec_format_hms(run.times.primary_centis as nat),
{
    let title = pick_title();
    let runner = match run.player() {
        Some(n) => n.to_owned(),
        None => "Unknown".to_owned(),
    };
    let category = match repo.category_name_from_run(run) {
        Some(name) => name,
        None => "Unknown".to_owned(),
    };
    let time_text = format_hms(run.times.primary_centis);
    RunEmbed { title, url: run.weblink.clone(), runner, category, time_text }
}

/// The symbol a finalized thread's new title is prefixed with.
pub open spec fn spec_resolution_symbol(res: Resolution) -> Seq<char> {
    match res {
        Resolution::Verified => "[verified]"@,
        Resolution::Rejected => "[rejected]"@,
        Resolution::Removed => "[removed]"@,
    }
}

/// The rename symbol for a resolution; each resolution gets its own.
pub fn resolution_symbol(res: &Resolution) -> (s: &'static str)
    ensures
        s@ == spec_resolution_symbol(*res),
{
    match res {
        Resolution::Verified => "[verified]",
        Resolution::Rejected => "[rejected]",
        Resolution::Removed => "[removed]",
    }
}

/// The notice posted into a thread whose submission vanished from the
/// source's queue.
pub fn removal_notice() -> (s: &'static str)
    ensures
        s@ == "This run could no longer be found on the source; archiving its thread."@,
{
    "This run could no longer be found on the source; archiving its thread."
}

} // verus!
