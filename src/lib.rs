pub mod text;
pub mod types;
pub mod api;
pub mod governor;
pub mod gateway;
pub mod sandbox;
pub mod runtime;
pub mod watcher;
pub mod manager;

pub use api::{HostApi, NotificationApi, StorageApi, SystemApi, TaskApi};
pub use manager::{ManagerError, Plugin, PluginManager, WatchAction};
pub use runtime::{LifecycleState, PluginRuntime};
pub use types::{
    PluginLanguage, PluginMessage, PluginMetadata, PluginStatus, ResourceLimits, ResourceUsage,
    Timestamp,
};
pub use watcher::{PluginWatchEvent, PluginWatchEventType};
