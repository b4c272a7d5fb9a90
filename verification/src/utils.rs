//! Instruction builders and the wire types of the read API.

pub mod compute_budget;
pub mod types;
