//! Core of a background agent that watches for pending package updates.

pub mod checker;
pub mod config;
pub mod debounce;
pub mod event;
pub mod icon;
pub mod monitor;
pub mod severity;
pub mod sink;
pub mod trace;
pub mod watch;
