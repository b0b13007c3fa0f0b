//! Filesystem-event supervisor core: rule matching, the three-layer
//! rate-limiting scheduler (debounce / throttle / mutex), the command
//! materializer and the lifecycle decisions, with machine-checked contracts.

pub mod cache;
pub mod command;
pub mod context;
pub mod crypto;
pub mod event;
pub mod logger;
pub mod matcher;
pub mod pathinfo;
pub mod runtime;
pub mod schedule;
pub mod settings;
pub mod strutil;
pub mod supervisor;
pub mod walk;
