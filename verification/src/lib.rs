//! A capability-scoped plugin runtime.
//!
//! A plugin is loaded from its manifest into an [`instance::Instance`], which
//! owns the capabilities that the manifest grants and the handlers that the
//! plugin registers. The host dispatches commands and events into an active
//! instance; the plugin reaches the host through the bridge of [`host`],
//! which checks each operation against the capabilities first.

pub mod api;
pub mod capability;
pub mod dispatch;
pub mod error;
pub mod host;
pub mod instance;
pub mod manifest;
pub mod memory;
pub mod names;
pub mod plugins;
pub mod prelude;
pub mod registry;
pub mod strings;

pub use crate::error::{PluginError, PluginResult};
pub use crate::host::{console_error, console_log, console_warn};
pub use crate::instance::{register_command, register_event};
pub use crate::manifest::PluginManifest;
