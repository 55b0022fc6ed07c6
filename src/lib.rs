//! Plugin SDK for the Luo9 chat bot: configuration values, message records,
//! the plugin contract, the backend messaging gateway and the bridge that
//! runs a plugin's construction on a task scheduler.

pub mod text;
pub mod config;
pub mod message;
pub mod plugin;
pub mod bridge;
pub mod scheduler;
pub mod utils;
pub mod api;
pub mod napcat;

pub use api::{ApiError, ApiManager, ApiTrait};
pub use config::Value;
pub use message::{GroupMessage, PrivateMessage};
pub use plugin::{Plugin, PluginMetadata};
