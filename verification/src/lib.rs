//! Verified core of a background-worker toolkit and of a desktop music
//! player: worker error classification, trigger configuration, worker
//! lifecycle decisions, key-value planning, playback queue state and the
//! player's navigation and pagination rules.

pub mod worker;
pub mod store;
pub mod player;
pub mod paths;
