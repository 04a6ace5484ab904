//! The agents: independently scheduled workers, one per role.

pub mod coordinator;
pub mod execution;
pub mod intelligence;
pub mod learning;
pub mod risk;
pub mod traits;
