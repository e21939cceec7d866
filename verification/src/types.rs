//! The data that crosses the boundary between the host and the plugin
//! runtime: events, plugin descriptors, configuration and the capabilities
//! that the host hands in.

use vstd::prelude::*;
use std::path::PathBuf;
use std::sync::Arc;
use crate::text::owned;
use crate::text::same_text;

verus! {

/// `std::path::PathBuf`: a location in the file system. The library carries
/// paths for the host and never looks inside them.
#[verifier::external_type_specification]
#[verifier::external_body]
pub struct ExPathBuf(PathBuf);

/// `serde_json::Value`: a JSON document. The library hands such values on to
/// the interpreter and never looks inside them.
#[verifier::external_type_specification]
#[verifier::external_body]
pub struct ExJsonValue(serde_json::Value);

/// `<serde_json::Value as Clone>::clone`: the copy is the same document.
pub assume_specification[ <serde_json::Value as Clone>::clone ](v: &serde_json::Value) -> (r:
    serde_json::Value)
    ensures
        r == *v,
;

/// `anyhow::Error`: the failure that a host command reports.
#[verifier::external_type_specification]
#[verifier::external_body]
pub struct ExHostError(anyhow::Error);

/// A host lifecycle signal that plugins can subscribe to.
#[derive(Debug, Clone, Copy, PartialEq, Eq, Hash, Structural)]
pub enum EventType {
    /// Plugin system initialized
    OnInit,
    /// Editor ready
    OnReady,
    /// Buffer opened
    OnBufferOpen,
    /// Buffer is about to be saved
    OnBufferPreSave,
    /// Buffer was saved
    OnBufferPostSave,
    /// Buffer closed
    OnBufferClose,
    /// Buffer content changed
    OnBufferChanged,
    /// Editor mode changed
    OnModeChange,
    /// Key was pressed
    OnKeyPress,
    /// LSP attached to buffer
    OnLspAttach,
    /// LSP diagnostics received
    OnLspDiagnostic,
    /// LSP server initialized
    OnLspInitialized,
    /// Selection changed
    OnSelectionChange,
    /// View/window changed
    OnViewChange,
}

/// The event type that a name stands for, if any.
pub open spec fn event_named(s: Seq<char>) -> Option<EventType> {
    if s == "init"@ {
        Some(EventType::OnInit)
    } else if s == "ready"@ {
        Some(EventType::OnReady)
    } else if s == "buffer_open"@ {
        Some(EventType::OnBufferOpen)
    } else if s == "buffer_pre_save"@ {
        Some(EventType::OnBufferPreSave)
    } else if s == "buffer_post_save"@ {
        Some(EventType::OnBufferPostSave)
    } else if s == "buffer_close"@ {
        Some(EventType::OnBufferClose)
    } else if s == "buffer_changed"@ {
        Some(EventType::OnBufferChanged)
    } else if s == "mode_change"@ {
        Some(EventType::OnModeChange)
    } else if s == "key_press"@ {
        Some(EventType::OnKeyPress)
    } else if s == "lsp_attach"@ {
        Some(EventType::OnLspAttach)
    } else if s == "lsp_diagnostic"@ {
        Some(EventType::OnLspDiagnostic)
    } else if s == "lsp_initialized"@ {
        Some(EventType::OnLspInitialized)
    } else if s == "selection_change"@ {
        Some(EventType::OnSelectionChange)
    } else if s == "view_change"@ {
        Some(EventType::OnViewChange)
    } else {
        None
    }
}

impl EventType {
    /// The name under which scripts know the event.
    pub open spec fn name(self) -> Seq<char> {
        match self {
            EventType::OnInit => "init"@,
            EventType::OnReady => "ready"@,
            EventType::OnBufferOpen => "buffer_open"@,
            EventType::OnBufferPreSave => "buffer_pre_save"@,
            EventType::OnBufferPostSave => "buffer_post_save"@,
            EventType::OnBufferClose => "buffer_close"@,
            EventType::OnBufferChanged => "buffer_changed"@,
            EventType::OnModeChange => "mode_change"@,
            EventType::OnKeyPress => "key_press"@,
            EventType::OnLspAttach => "lsp_attach"@,
            EventType::OnLspDiagnostic => "lsp_diagnostic"@,
            EventType::OnLspInitialized => "lsp_initialized"@,
            EventType::OnSelectionChange => "selection_change"@,
            EventType::OnViewChange => "view_change"@,
        }
    }

    /// Returns the event name as a string for scripts.
    pub fn as_str(&self) -> (r: &'static str)
        ensures
            r@ == self.name(),
    {
        match self {
            EventType::OnInit => "init",
            EventType::OnReady => "ready",
            EventType::OnBufferOpen => "buffer_open",
            EventType::OnBufferPreSave => "buffer_pre_save",
            EventType::OnBufferPostSave => "buffer_post_save",
            EventType::OnBufferClose => "buffer_close",
            EventType::OnBufferChanged => "buffer_changed",
            EventType::OnModeChange => "mode_change",
            EventType::OnKeyPress => "key_press",
            EventType::OnLspAttach => "lsp_attach",
            EventType::OnLspDiagnostic => "lsp_diagnostic",
            EventType::OnLspInitialized => "lsp_initialized",
            EventType::OnSelectionChange => "selection_change",
            EventType::OnViewChange => "view_change",
        }
    }

    /// Recognizes an event name; an unknown name gives `None`.
    pub fn parse(s: &str) -> (r: Option<EventType>)
        ensures
            r == event_named(s@),
    {
        if same_text(s, "init") {
            Some(EventType::OnInit)
        } else if same_text(s, "ready") {
            Some(EventType::OnReady)
        } else if same_text(s, "buffer_open") {
            Some(EventType::OnBufferOpen)
        } else if same_text(s, "buffer_pre_save") {
            Some(EventType::OnBufferPreSave)
        } else if same_text(s, "buffer_post_save") {
            Some(EventType::OnBufferPostSave)
        } else if same_text(s, "buffer_close") {
            Some(EventType::OnBufferClose)
        } else if same_text(s, "buffer_changed") {
            Some(EventType::OnBufferChanged)
        } else if same_text(s, "mode_change") {
            Some(EventType::OnModeChange)
        } else if same_text(s, "key_press") {
            Some(EventType::OnKeyPress)
        } else if same_text(s, "lsp_attach") {
            Some(EventType::OnLspAttach)
        } else if same_text(s, "lsp_diagnostic") {
            Some(EventType::OnLspDiagnostic)
        } else if same_text(s, "lsp_initialized") {
            Some(EventType::OnLspInitialized)
        } else if same_text(s, "selection_change") {
            Some(EventType::OnSelectionChange)
        } else if same_text(s, "view_change") {
            Some(EventType::OnViewChange)
        } else {
            None
        }
    }
}

impl core::str::FromStr for EventType {
    type Err = ();

    /// Recognizes an event name; an unknown name is an error.
    fn from_str(s: &str) -> (r: core::result::Result<Self, ()>)
        ensures
            r == match event_named(s@) {
                Some(t) => Ok::<EventType, ()>(t),
                None => Err::<EventType, ()>(()),
            },
    {
        match EventType::parse(s) {
            Some(t) => Ok(t),
            None => Err(()),
        }
    }
}

/// Two names of event types differ in their length or in their first
/// character.
pub open spec fn name_mark(t: EventType) -> (nat, char) {
    (t.name().len(), t.name()[0])
}

/// Different event types have different names.
pub proof fn lemma_names_distinct(a: EventType, b: EventType)
    ensures
        a != b ==> a.name() != b.name(),
{
    reveal_strlit("init");
    reveal_strlit("ready");
    reveal_strlit("buffer_open");
    reveal_strlit("buffer_pre_save");
    reveal_strlit("buffer_post_save");
    reveal_strlit("buffer_close");
    reveal_strlit("buffer_changed");
    reveal_strlit("mode_change");
    reveal_strlit("key_press");
    reveal_strlit("lsp_attach");
    reveal_strlit("lsp_diagnostic");
    reveal_strlit("lsp_initialized");
    reveal_strlit("selection_change");
    reveal_strlit("view_change");
    assert(a != b ==> name_mark(a) != name_mark(b));
}

/// The mapping between names and event types is one-to-one: the name of an
/// event type is recognized as that type.
pub proof fn law_name_round_trip(t: EventType)
    ensures
        event_named(t.name()) == Some(t),
{
    lemma_names_distinct(t, EventType::OnInit);
    lemma_names_distinct(t, EventType::OnReady);
    lemma_names_distinct(t, EventType::OnBufferOpen);
    lemma_names_distinct(t, EventType::OnBufferPreSave);
    lemma_names_distinct(t, EventType::OnBufferPostSave);
    lemma_names_distinct(t, EventType::OnBufferClose);
    lemma_names_distinct(t, EventType::OnBufferChanged);
    lemma_names_distinct(t, EventType::OnModeChange);
    lemma_names_distinct(t, EventType::OnKeyPress);
    lemma_names_distinct(t, EventType::OnLspAttach);
    lemma_names_distinct(t, EventType::OnLspDiagnostic);
    lemma_names_distinct(t, EventType::OnLspInitialized);
    lemma_names_distinct(t, EventType::OnSelectionChange);
    lemma_names_distinct(t, EventType::OnViewChange);
}

/// The mapping between names and event types is one-to-one: a name that is
/// recognized is the name of the type it is recognized as, so no two names
/// stand for one type and every other text is rejected.
pub proof fn law_recognized_name_is_exact(s: Seq<char>, t: EventType)
    ensures
        event_named(s) == Some(t) <==> s == t.name(),
{
    law_name_round_trip(t);
}

/// The host's identifier of an open document.
#[derive(Debug, Clone, Copy, PartialEq, Eq, Hash, Structural)]
pub struct DocumentId(pub usize);

impl Default for DocumentId {
    /// The id of the first document.
    fn default() -> (r: Self)
        ensures
            r == DocumentId(1),
    {
        DocumentId(1)
    }
}

/// An event that the host fires.
#[derive(Debug, Clone)]
pub struct PluginEvent {
    pub event_type: EventType,
    pub data: EventData,
}

/// What an event carries besides its type.
#[derive(Debug, Clone)]
pub enum EventData {
    /// No data
    Empty,
    /// Buffer-related data
    Buffer { document_id: DocumentId, path: Option<String> },
    /// Mode change data
    ModeChange { old_mode: String, new_mode: String },
    /// Key press data
    KeyPress { key: String },
    /// LSP attach data
    LspAttach { document_id: DocumentId, language_server_id: usize },
    /// LSP diagnostic data
    LspDiagnostic { document_id: DocumentId, diagnostic_count: usize },
}

/// Plugin metadata
#[derive(Debug, Clone)]
pub struct PluginMetadata {
    /// Plugin name
    pub name: String,
    /// Plugin version
    pub version: String,
    /// Plugin description
    pub description: Option<String>,
    /// Plugin author
    pub author: Option<String>,
    /// Plugin entry point (default: init.lua)
    pub entry: Option<String>,
}

impl PluginMetadata {
    /// The name of the entry script: the one the metadata gives, else
    /// `init.lua`.
    pub open spec fn entry_name(self) -> Seq<char> {
        match self.entry {
            Some(e) => e@,
            None => "init.lua"@,
        }
    }

    /// The name of the script that is run when the plugin is loaded.
    pub fn entry_script(&self) -> (r: String)
        ensures
            r@ == self.entry_name(),
    {
        match &self.entry {
            Some(e) => e.clone(),
            None => owned("init.lua"),
        }
    }
}

impl Default for PluginMetadata {
    fn default() -> (r: Self)
        ensures
            r.name@ == Seq::<char>::empty(),
            r.version@ == "0.1.0"@,
            r.description is None,
            r.author is None,
            r.entry matches Some(e) && e@ == "init.lua"@,
    {
        PluginMetadata {
            name: String::new(),
            version: owned("0.1.0"),
            description: None,
            author: None,
            entry: Some(owned("init.lua")),
        }
    }
}

/// A plugin as discovery found it: its metadata, its directory, and whether
/// it is enabled.
#[derive(Debug)]
pub struct Plugin {
    /// Plugin metadata
    pub metadata: PluginMetadata,
    /// Plugin root path
    pub path: PathBuf,
    /// Whether the plugin is enabled
    pub enabled: bool,
}

/// Configuration for an individual plugin
#[derive(Debug, Clone)]
pub struct IndividualPluginConfig {
    /// Plugin name
    pub name: String,
    /// Whether this plugin is enabled
    pub enabled: bool,
    /// Plugin-specific configuration
    pub config: serde_json::Value,
}

/// Plugin configuration
#[derive(Debug, Clone)]
pub struct PluginConfig {
    /// Whether plugins are enabled globally
    pub enabled: bool,
    /// Plugin directories to search
    pub plugin_dirs: Vec<PathBuf>,
    /// Individual plugin configurations
    pub plugins: Vec<IndividualPluginConfig>,
}

/// The value of an `enabled` flag that a configuration does not mention.
pub fn default_true() -> (r: bool)
    ensures
        r,
{
    true
}

impl Default for PluginConfig {
    fn default() -> (r: Self)
        ensures
            r.enabled,
            r.plugin_dirs@.len() == 0,
            r.plugins@.len() == 0,
    {
        PluginConfig { enabled: default_true(), plugin_dirs: Vec::new(), plugins: Vec::new() }
    }
}

/// Metadata for a registered command
#[derive(Debug, Clone)]
pub struct CommandMetadata {
    /// Command name
    pub name: String,
    /// Command documentation/help text
    pub doc: String,
    /// Arguments description (optional)
    pub args: Option<String>,
}

/// The host's capability to run one of its own commands for a plugin.
pub trait EditorCommandRegistry<H>: Send + Sync {
    fn execute(&self, host: &mut H, name: &str, args: &[String]) -> (r: core::result::Result<
        (),
        anyhow::Error,
    >);
}

/// Hands the command capability around as one value.
#[verifier::reject_recursive_types(H)]
pub struct CommandRegistryWrapper<H>(pub Arc<dyn EditorCommandRegistry<H>>);

/// The host's capability to present an interaction to the user. Each method
/// returns at once; the host later completes the interaction by handing the
/// same `plugin_name` and `callback_id` back to the engine.
pub trait UiHandler<H>: Send + Sync {
    fn prompt(
        &self,
        host: &mut H,
        message: String,
        default: Option<String>,
        plugin_name: String,
        callback_id: u64,
    );

    fn confirm(&self, host: &mut H, message: String, plugin_name: String, callback_id: u64);

    fn picker(
        &self,
        host: &mut H,
        items: Vec<String>,
        prompt: String,
        plugin_name: String,
        callback_id: u64,
    );
}

/// Hands the presentation capability around as one value.
#[verifier::reject_recursive_types(H)]
pub struct UiHandlerWrapper<H>(pub Arc<dyn UiHandler<H>>);

} // verus!
