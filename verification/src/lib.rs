//! Durable state for AI agents: users, sessions, goals, idempotent tool
//! executions, memories and channels, with the rules that govern them.
pub mod api;
pub mod concurrency;
pub mod digest;
pub mod ids;
pub mod json;
pub mod models;
pub mod persistence;
pub mod replay;
pub mod time;
