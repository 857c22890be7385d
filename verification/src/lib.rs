//! Capability registry and lifecycle contract of a plugin unit.
//!
//! A plugin unit is attached to a host runtime. It stores the one execution
//! context that the host supplies, acknowledges the lifecycle hooks that the
//! host calls, and answers for each provider role either with a handle on the
//! provider object that was registered for the role, or with the error that
//! is specific to the absence of that role.

pub mod context;
pub mod history;
pub mod metadata;
pub mod plugin;
pub mod provider;
pub mod role;

pub use context::{create_empty_plugin_context_container, PluginContextContainer};
pub use metadata::PluginMetadata;
pub use plugin::{BinaryPlugin, BinaryPluginImpl, Plugin};
pub use provider::{resolve, ContextualProvider, Provider, RoleHandle};
pub use role::{PluginError, Role};
