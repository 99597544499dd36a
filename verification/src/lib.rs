//! Mirrors a speedrun submission queue into a chat channel.
//!
//! The core is a reconciliation engine: a persisted state machine that turns
//! signals from two remote services (the submission source and the
//! notification gateway) into an idempotent sequence of side effects, while
//! respecting the gateway's replenishing rate budget and tolerating partial
//! failure.  The remote calls themselves are made by the surrounding
//! application; this crate holds the verified decision logic, the record
//! table model, and the formatting rules.

use vstd::prelude::*;

pub mod cache;
pub mod category_repository;
pub mod error;
pub mod intake;
pub mod lifecycle;
pub mod message;
pub mod models;
pub mod ratelimit;
pub mod src;
pub mod store;
pub mod sweep;
pub mod utils;

verus! {

/// Identifier of the game whose submission queue is watched.
pub const ALTTP_GAME_ID: &'static str = "9d3rr0dl";

} // verus!
