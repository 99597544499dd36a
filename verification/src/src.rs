//! The submission source's data, as the reconcilers see it.
//!
//! The surrounding application talks to the source's API and hands these
//! plain values in: a submission with its embedded players and primary time,
//! and the one-run status lookup's answer.

use vstd::prelude::*;

verus! {

/// One selectable value of a variable, carrying its display label.
#[derive(Debug, Clone)]
pub struct Value {
    pub label: String,
}

/// The values a variable can take, keyed by value id.
#[derive(Debug, Clone)]
pub struct Values {
    pub values: Vec<(String, Value)>,
}

/// A variable attached to a category; only subcategory variables matter for
/// naming.
#[derive(Debug, Clone)]
pub struct Variable {
    pub id: String,
    pub category: Option<String>,
    pub is_subcategory: bool,
    pub values: Values,
}

/// A category of the game, with its variables embedded.
#[derive(Debug, Clone)]
pub struct Category {
    pub id: String,
    pub name: String,
    pub variables: Vec<Variable>,
}

/// A run's recorded times; only the primary one is shown.
#[derive(Debug)]
pub struct Times {
    /// The source's own formatted duration, informational only.
    pub primary: String,
    /// The primary time in hundredths of a second.
    pub primary_centis: u64,
}

/// A player embedded in a run: a registered user or a guest.
#[derive(Debug)]
pub enum PlayerEmbed {
    User { international: String },
    Guest { name: String },
}

/// The display name of a player.
pub open spec fn spec_player_name(p: PlayerEmbed) -> Seq<char> {
    match p {
        PlayerEmbed::User { international } => international@,
        PlayerEmbed::Guest { name } => name@,
    }
}

impl PlayerEmbed {
    /// The display name: a user's international name, a guest's given one.
    pub fn name(&self) -> (r: &str)
        ensures
            r@ == spec_player_name(*self),
    {
        match self {
            PlayerEmbed::User { international } => international.as_str(),
            PlayerEmbed::Guest { name } => name.as_str(),
        }
    }
}

/// One submission from the source's queue.
#[derive(Debug)]
pub struct SRCRun {
    /// The run's identity on the source side.
    pub id: String,
    /// A human-facing link to the run.
    pub weblink: String,
    /// The id of the run's category.
    pub category: String,
    /// The embedded players, submitter first.
    pub players: Vec<PlayerEmbed>,
    /// When the run was submitted; opaque, informational only.
    pub submitted: Option<String>,
    /// The run's times.
    pub times: Times,
    /// The run's variable-to-value choices, as id pairs.
    pub values: Vec<(String, String)>,
}

impl SRCRun {
    /// The submitter: the first embedded player, when there is one.
    pub fn player(&self) -> (r: Option<&str>)
        ensures
            match r {
                Some(n) => self.players@.len() > 0 && n@ == spec_player_name(self.players@[0]),
                None => self.players@.len() == 0,
            },
    {
        if self.players.len() > 0 {
            Some(self.players[0].name())
        } else {
            None
        }
    }
}

/// The source's answer to a one-run status lookup.
#[derive(Debug)]
pub struct SRCRunStatus {
    /// The run's identity on the source side.
    pub id: String,
    /// The verification status, as the API spells it.
    pub status: String,
}

} // verus!
