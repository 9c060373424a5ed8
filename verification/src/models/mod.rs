//! The state models: users, sessions, goals, tool executions, memories,
//! channels and tool schemas.
pub mod channel;
pub mod entity;
pub mod goal;
pub mod memory;
pub mod session;
pub mod status;
pub mod tool_execution;
pub mod tool_schema;
pub mod user;
