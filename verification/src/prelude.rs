//! Everything that a plugin needs, in one import.

pub use crate::api::text::TextAPI;
pub use crate::api::ui::UiAPI;
pub use crate::capability::CapabilitySet;
pub use crate::dispatch::{content_of, Handler, Kind, Tagged};
pub use crate::error::{PluginError, PluginResult};
pub use crate::host::{console_error, console_log, console_warn, Host, HostCall, LogLevel};
pub use crate::instance::{register_command, register_event, Instance, Lifecycle};
pub use crate::manifest::PluginManifest;
