//! Device-level types.

pub mod features;
