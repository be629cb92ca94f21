//! Safe access to a shared CRDT document that may be owned, lent for the
//! duration of one call, or held by a long-lived actor behind a lock.
//!
//! - [`reference`]: the three ownership regimes, and when each kind of
//!   access is refused under them;
//! - [`guard`]: the access guard over one reference, with direct writes;
//! - [`view`]: the views that reads run against, and the reads;
//! - [`transaction`]: the transaction a guard may hold, ended exactly once;
//! - [`registry`]: the per-thread record of actor locks held by callbacks;
//! - [`bridge`]: lending an actor's document to a callback and taking it back;
//! - [`laws`]: properties that relate several operations;
//! - [`engine`]: the document engine's calls, each behind a trusted wrapper.

pub mod engine;
pub mod error;
pub mod registry;
pub mod reference;
pub mod guard;
pub mod transaction;
pub mod view;
pub mod bridge;
pub mod laws;
