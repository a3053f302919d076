//! Core of a single-host deploy daemon: project records, naming rules, the
//! job scheduler's decisions, blue-green rollover and webhook verification.
pub mod config;
pub mod engine;
pub mod error;
pub mod models;
pub mod paths;
pub mod project;
pub mod protocol;
pub mod registry;
pub mod rollout;
pub mod scheduler;
pub mod text;
pub mod utils;
pub mod webhook;
pub mod cli;
pub mod display;
pub mod ipc;
pub mod status;
