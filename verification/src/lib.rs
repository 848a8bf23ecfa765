//! Command routing and authorization for a chat-driven operations console.
//!
//! The library decides; it performs no input or output. A caller hands it the
//! typed configuration and each inbound update as plain values and carries out
//! what it answers.

pub mod auth;
pub mod config;
pub mod dispatch;
pub mod docker;
pub mod docker_report;
pub mod registry;
pub mod reply;
pub mod system;
pub mod text;
pub mod tokenizer;
pub mod transmission;
