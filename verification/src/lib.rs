//! Staleness arithmetic for cached values and a single-slot timer that keeps
//! at most one scheduled callback outstanding.

pub mod calls;
pub mod instant;
pub mod slot;
pub mod staleness;
pub mod timeout;
pub mod timer;
