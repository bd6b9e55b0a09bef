//! The operations that callers invoke.
pub mod crank_distribution;
pub mod crank_distribution_full;
pub mod initialize_honorary_position;
pub mod initialize_policy;
