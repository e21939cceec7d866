//! A plugin runtime that lets scripts extend a host application: plugins
//! subscribe to events, register commands and request interactive input, and
//! the host drives every entry into script code.

pub mod annotations;
pub mod assoc;
pub mod binding;
pub mod blame;
pub mod error;
pub mod layout;
pub mod lua;
pub mod manager;
pub mod payload;
pub mod registry;
pub mod render;
pub mod text;
pub mod types;
pub mod ui_requests;
pub mod vecs;
pub mod vm;

pub use error::PluginError;
pub use error::Result;
pub use lua::LuaEngine;
pub use manager::PluginManager;
pub use types::EventData;
pub use types::EventType;
pub use types::IndividualPluginConfig;
pub use types::Plugin;
pub use types::PluginConfig;
pub use types::PluginEvent;
pub use types::PluginMetadata;
