//! Orchestration core of an autonomous trading platform: the shared context,
//! the message bus and its router, the agent registry with cooperative
//! shutdown, and the bounded stream of decision records.

pub mod agents;
pub mod ai_thoughts;
pub mod bus;
pub mod chance;
pub mod clock;
pub mod config;
pub mod context;
pub mod errors;
pub mod execution;
pub mod ids;
pub mod metrics;
pub mod money;
pub mod system;
pub mod text;
pub mod thought_templates;
pub mod types;
pub mod vector_store;
