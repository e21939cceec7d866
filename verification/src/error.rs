//! The errors of the plugin runtime.

use vstd::prelude::*;
use crate::text::join2;
use crate::text::join3;

verus! {

/// `mlua::Error`: what the interpreter reports when loading or running script
/// code fails. The library carries such a value and never looks inside it.
#[verifier::external_type_specification]
#[verifier::external_body]
pub struct ExScriptError(mlua::Error);

/// `std::io::Error`: the failure of a read that the host made for the library.
#[verifier::external_type_specification]
#[verifier::external_body]
pub struct ExIoError(std::io::Error);

/// Errors that can occur in the plugin system.
///
/// `InitializationFailed` is fatal for the engine; the per-plugin and
/// per-dispatch variants leave the engine usable.
#[derive(Debug)]
pub enum PluginError {
    /// The interpreter could not be set up.
    InitializationFailed(String),
    /// The interpreter reported an error.
    LuaError(mlua::Error),
    /// No plugin of that name is resident.
    PluginNotFound(String),
    /// A plugin of that name is already resident.
    PluginAlreadyLoaded(String),
    /// A handler of `plugin` failed while an event was dispatched to it.
    EventHandlerError { plugin: String, error: String },
    /// The command is unknown, or its callback failed.
    CommandExecutionFailed(String),
    /// The plugin's directory does not hold what a plugin needs.
    InvalidPluginStructure(String),
    /// A read failed.
    IoError(std::io::Error),
    /// The plugin's metadata or configuration is malformed.
    ConfigError(String),
    /// A host-accessing function was called while no dispatch was active.
    ApiAccessError(String),
}

/// Result type for plugin operations.
pub type Result<T> = core::result::Result<T, PluginError>;

/// `<mlua::Error as Display>::fmt`, through `to_string`: the interpreter's own
/// wording of the error. Nothing is claimed of the text.
#[verifier::external_body]
pub(crate) fn script_error_text(e: &mlua::Error) -> (text: String) {
    e.to_string()
}

/// `<std::io::Error as Display>::fmt`, through `to_string`: the system's
/// wording of the error. Nothing is claimed of the text.
#[verifier::external_body]
pub(crate) fn io_error_text(e: &std::io::Error) -> (text: String) {
    e.to_string()
}

/// The text that introduces the message of each variant.
pub open spec fn message_prefix(e: PluginError) -> Seq<char> {
    match e {
        PluginError::InitializationFailed(_) => "Plugin initialization failed: "@,
        PluginError::LuaError(_) => "Lua error: "@,
        PluginError::PluginNotFound(_) => "Plugin not found: "@,
        PluginError::PluginAlreadyLoaded(_) => "Plugin already loaded: "@,
        PluginError::EventHandlerError { .. } => "Event handler error in plugin '"@,
        PluginError::CommandExecutionFailed(_) => "Command execution failed: "@,
        PluginError::InvalidPluginStructure(_) => "Invalid plugin structure: "@,
        PluginError::IoError(_) => "IO error: "@,
        PluginError::ConfigError(_) => "Configuration error: "@,
        PluginError::ApiAccessError(_) => "API access error: "@,
    }
}

/// The whole message of an error, given the wording `detail` of the outside
/// error that it may hold (only `LuaError` and `IoError` read `detail`).
pub open spec fn message_of(e: PluginError, detail: Seq<char>) -> Seq<char> {
    match e {
        PluginError::InitializationFailed(m) => message_prefix(e) + m@,
        PluginError::LuaError(_) => message_prefix(e) + detail,
        PluginError::PluginNotFound(m) => message_prefix(e) + m@,
        PluginError::PluginAlreadyLoaded(m) => message_prefix(e) + m@,
        PluginError::EventHandlerError { plugin, error } => message_prefix(e) + plugin@ + "': "@
            + error@,
        PluginError::CommandExecutionFailed(m) => message_prefix(e) + m@,
        PluginError::InvalidPluginStructure(m) => message_prefix(e) + m@,
        PluginError::IoError(_) => message_prefix(e) + detail,
        PluginError::ConfigError(m) => message_prefix(e) + m@,
        PluginError::ApiAccessError(m) => message_prefix(e) + m@,
    }
}

impl PluginError {
    /// Whether the error holds an error value of the interpreter or of the
    /// system, whose wording the library does not know.
    pub open spec fn holds_outside_error(self) -> bool {
        self is LuaError || self is IoError
    }

    /// The message of the error, as shown to a user.
    pub fn message(&self) -> (text: String)
        ensures
            !self.holds_outside_error() ==> text@ == message_of(*self, Seq::empty()),
            self.holds_outside_error() ==> message_prefix(*self).is_prefix_of(text@),
    {
        match self {
            PluginError::InitializationFailed(m) => join2(
                "Plugin initialization failed: ",
                m.as_str(),
            ),
            PluginError::LuaError(e) => {
                let detail = script_error_text(e);
                join2("Lua error: ", detail.as_str())
            },
            PluginError::PluginNotFound(m) => join2("Plugin not found: ", m.as_str()),
            PluginError::PluginAlreadyLoaded(m) => join2("Plugin already loaded: ", m.as_str()),
            PluginError::EventHandlerError { plugin, error } => {
                let head = join3("Event handler error in plugin '", plugin.as_str(), "': ");
                join2(head.as_str(), error.as_str())
            },
            PluginError::CommandExecutionFailed(m) => join2(
                "Command execution failed: ",
                m.as_str(),
            ),
            PluginError::InvalidPluginStructure(m) => join2(
                "Invalid plugin structure: ",
                m.as_str(),
            ),
            PluginError::IoError(e) => {
                let detail = io_error_text(e);
                join2("IO error: ", detail.as_str())
            },
            PluginError::ConfigError(m) => join2("Configuration error: ", m.as_str()),
            PluginError::ApiAccessError(m) => join2("API access error: ", m.as_str()),
        }
    }
}

} // verus!
