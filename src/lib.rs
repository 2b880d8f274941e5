//! Approval gate for an external coding-assistant process: rule matching,
//! wire-record translation, the session coordinator and its event dispatcher.

pub mod auto_approve;
pub mod bridge;
pub mod debug;
pub mod json;
pub mod model_manager;
pub mod security;
pub mod state;
pub mod text;
pub mod types;
