//! Verified core of the YunZai console: configuration, the plugin index,
//! setup checks, the setup wizard and service start/stop sequences as state
//! machines, process matching, status snapshots and log handling.
pub mod text;
pub mod host;
pub mod config;
pub mod logs;
pub mod plugin_index;
pub mod bootstrap;
pub mod task;
pub mod setup;
pub mod process;
pub mod service;
pub mod state;
pub mod console;
