//! Day/night phase resolution for a home-automation trigger: two daily
//! boundary times, rotated so that the earliest sits at midnight, decide
//! which phase is active at any time of day; a monitor turns phase changes
//! into writes and broadcasts for an outside key-value store.

pub mod monitor;
pub mod phase;
pub mod schedule;
pub mod time;
