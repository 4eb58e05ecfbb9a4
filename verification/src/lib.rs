//! A minimal registry that mints uniquely identified records ("kitties").
//!
//! Identifiers are derived deterministically from caller-supplied bytes and a
//! monotonic counter: the pair is SCALE-encoded and hashed with SHA-256. The
//! registry stores each record under its own identifier, rejects duplicates,
//! and only lets an owner mint records for itself.

pub mod codec;
pub mod identity;
pub mod registry;
