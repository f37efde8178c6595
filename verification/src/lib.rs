//! Core engine of a desktop voice assistant: command routing, bounded
//! conversation state for chat-completion providers, and automation
//! routines with partial-failure execution.
//!
//! The surrounding application performs all I/O (HTTP calls, process
//! launching, persistence) and hands this crate plain values; everything
//! here is verified.

pub mod apps;
pub mod automation;
pub mod config;
mod clock;
pub mod dispatcher;
pub mod executor;
pub mod messages;
pub mod provider;
pub mod router;
pub mod settings;
pub mod speech;
pub mod text;
