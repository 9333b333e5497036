//! Process-local, time-derived 128-bit identifiers.
//!
//! An [`Id`] combines an OS uptime reading (placed in the high 64 bits) with a
//! wall-clock timestamp in nanoseconds since the Unix epoch (added to the shifted
//! uptime) into a single 128-bit value.

pub mod id;

pub use id::new_identifier;
pub use id::Id;
pub use id::IdError;
