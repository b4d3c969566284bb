//! The in-memory store and its most-specific lookups.

pub mod data;
pub mod index;
pub mod keys;
pub mod mem;
