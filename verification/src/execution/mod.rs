//! Trade execution.

pub mod api;
