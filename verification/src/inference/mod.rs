//! Inference requests and the choice of a runtime for them.

pub mod plan_laws;
pub mod planner;
pub mod types;
