//! The rules behind the public REST endpoints: how cached accounts are keyed
//! and found, and how many trades a history request may ask for.

pub mod public_history;
pub mod user;
