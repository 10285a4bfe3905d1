//! A self-growing pool of descriptor sets, with the bookkeeping that keeps
//! every set either in its chunk's reserve or in exactly one live allocation.
//!
//! The pool lives in `descriptor_set::fixed_size_pool`. What holds of every
//! pool is proved in `descriptor_set::invariants`.

pub mod descriptor_set;
pub mod device;

pub use crate::descriptor_set::pool::OomError;
