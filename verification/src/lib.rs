//! Occupancy tracking for physical "sections" (shower-room stalls grouped by
//! gender, building and floor).
//!
//! The crate has three parts: a pure status-transition engine that moves one
//! room between the `available` / `occupied` / `disabled` states while keeping
//! the counters consistent (`utils`), an in-memory section store built on that
//! engine (`models`, `errors`, `traits`, `in_memory`), and a notification hub
//! that fans a change message out to every live subscriber over its own
//! unbounded queue (`events`). The `section` module keeps an earlier compact
//! revision of the store whose transition request names only the room's new
//! status; it follows the same edge policy as the full engine.

pub mod errors;
pub mod events;
pub mod in_memory;
pub mod models;
pub mod section;
pub mod traits;
pub mod utils;
