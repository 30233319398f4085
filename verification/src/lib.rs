//! Cover art bookkeeping of a music library, verified with Verus.
//!
//! The database itself lives outside this crate. What the library decides is
//! written here as state machines: each machine is told what the store
//! answered and says what to ask the store next. The `store` module models the
//! store's tables and what a faithful store answers, and the laws of
//! `cover_art_sync` and `cover_art_removal` are proved against that model.

pub mod store;
pub mod lookup;
pub mod cover_art_sync;
pub mod cover_art_removal;
pub mod mixes;
pub mod hub;
