//! Role menus: named, guild-scoped sets of roles that members pick from.
//!
//! The library holds the menu store with its case-insensitive uniqueness rule,
//! the engine that turns a member's selection into role grants and revocations,
//! and the two interactive flows (creating a menu, using one) as state machines
//! whose outside work is performed by the caller.
pub mod names;
pub mod diff;
pub mod menu;
pub mod store;
pub mod messages;
pub mod creation;
pub mod assignment;
pub mod nulls;
pub mod fortune;
