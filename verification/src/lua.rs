//! The script engine: one interpreter, the registries, and every dispatch
//! from the host into script code.

use vstd::prelude::*;
use std::collections::VecDeque;
use std::sync::Arc;
use crate::lua::api::PendingRequest;
use crate::binding::call_bound;
use crate::binding::current_plugin_global;
use crate::lua::api::ApiName;
use crate::lua::api::api_version;
use crate::lua::api::drain;
use crate::lua::api::install_confirm;
use crate::lua::api::install_execute_command;
use crate::lua::api::share_registry;
use crate::lua::api::install_get_config;
use crate::lua::api::install_picker;
use crate::lua::api::install_prompt;
use crate::lua::api::install_register_command;
use crate::lua::api::install_subscribe;
use crate::lua::api::queue_install;
use crate::error::PluginError;
use crate::error::script_error_text;
use crate::payload::EventPayload;
use crate::payload::event_payload;
use crate::payload::payload_table;
use crate::registry::CommandEntry;
use crate::registry::CommandRegistry;
use crate::registry::EventHandlerEntry;
use crate::registry::EventRegistry;
use crate::registry::PluginTable;
use crate::registry::UiCallbackRegistry;
use crate::registry::handlers_of;
use crate::registry::ids_below;
use crate::registry::located;
use crate::text::join2;
use crate::types::CommandMetadata;
use crate::types::CommandRegistryWrapper;
use crate::types::EventType;
use crate::types::Plugin;
use crate::types::PluginConfig;
use crate::types::PluginEvent;
use crate::types::UiHandlerWrapper;
use crate::vm::clear_global;
use crate::vm::json_argument;
use crate::vm::new_interpreter;
use crate::vm::new_table;
use crate::vm::run_chunk;
use crate::vm::set_global_table;
use crate::vm::set_global_text;
use crate::vm::stored_function;
use crate::vm::table_argument;
use crate::vm::table_set_table;
use crate::vm::table_set_text;
use crate::vm::text_argument;

pub mod api;
pub mod loader;

verus! {

/// What the engine holds, as mathematical values.
pub struct EngineState {
    /// Every subscription, in the order in which they were made.
    pub handlers: Seq<EventHandlerEntry>,
    /// The commands by name.
    pub commands: Map<Seq<char>, CommandEntry>,
    /// The callbacks of pending interactions, by plugin and id.
    pub ui_callbacks: Map<(Seq<char>, u64), mlua::RegistryKey>,
    /// The id that the next interaction gets.
    pub next_id: u64,
    /// The resident plugins by name.
    pub plugins: Map<Seq<char>, Plugin>,
    /// Whether the host has handed in its capability to present interactions.
    pub interactive: bool,
}

impl EngineState {
    /// Every pending interaction has an id that was handed out before.
    pub open spec fn wf(self) -> bool {
        ids_below(self.ui_callbacks, self.next_id)
    }

    /// The handlers of one event type, in subscription order.
    pub open spec fn handlers_for(self, event_type: EventType) -> Seq<EventHandlerEntry> {
        handlers_of(self.handlers, event_type)
    }

    /// The state without the pending interaction `(plugin, id)`.
    pub open spec fn without_callback(self, plugin: Seq<char>, id: u64) -> EngineState {
        EngineState { ui_callbacks: self.ui_callbacks.remove((plugin, id)), ..self }
    }

    /// The state with `plugin` resident.
    pub open spec fn with_plugin(self, plugin: Plugin) -> EngineState {
        EngineState { plugins: self.plugins.insert(plugin.metadata.name@, plugin), ..self }
    }

    /// The state of a new engine: nothing is registered, no plugin is
    /// resident, the first id is 1 and the host has handed in nothing.
    pub open spec fn fresh() -> EngineState {
        EngineState {
            handlers: Seq::empty(),
            commands: Map::empty(),
            ui_callbacks: Map::empty(),
            next_id: 1,
            plugins: Map::empty(),
            interactive: false,
        }
    }

    /// The state after a reset: nothing is registered and no plugin is
    /// resident. The ids that were handed out stay used, and the host's
    /// capabilities stay.
    pub open spec fn cleared(self) -> EngineState {
        EngineState {
            handlers: Seq::empty(),
            commands: Map::empty(),
            ui_callbacks: Map::empty(),
            next_id: self.next_id,
            plugins: Map::empty(),
            interactive: self.interactive,
        }
    }
}

/// The state after one request of a script that ran for the plugin `owner`
/// has been applied.
///
/// A subscription goes behind all earlier ones, for `owner`. A command
/// replaces the command of the same name and belongs to `owner`. An
/// interaction gets the next id and its callback becomes pending under
/// `owner` and that id; it is dropped where the host is not at hand
/// (`with_host`), has no capability to present it, or the ids are used up.
pub open spec fn step(
    s: EngineState,
    request: PendingRequest,
    owner: String,
    with_host: bool,
) -> EngineState {
    match request {
        PendingRequest::Subscribe { event_type, callback } => EngineState {
            handlers: s.handlers.push(EventHandlerEntry { event_type, plugin: owner, callback }),
            ..s
        },
        PendingRequest::Command { metadata, callback } => EngineState {
            commands: s.commands.insert(
                metadata.name@,
                CommandEntry { metadata, plugin: owner, callback },
            ),
            ..s
        },
        _ => if with_host && s.interactive && s.next_id < u64::MAX {
            EngineState {
                ui_callbacks: s.ui_callbacks.insert((owner@, s.next_id), request.callback()),
                next_id: (s.next_id + 1) as u64,
                ..s
            }
        } else {
            s
        },
    }
}

/// The state after the requests of a script that ran for the plugin `owner`
/// have been applied in the order in which the script made them.
pub open spec fn run(
    s: EngineState,
    requests: Seq<PendingRequest>,
    owner: String,
    with_host: bool,
) -> EngineState
    decreases requests.len(),
{
    if requests.len() == 0 {
        s
    } else {
        run(step(s, requests[0], owner, with_host), requests.skip(1), owner, with_host)
    }
}

/// Whether `to` is what becomes of `from` when some requests of a script
/// that ran for the plugin `owner` are applied to it.
pub open spec fn reachable(from: EngineState, to: EngineState, owner: String, with_host: bool) -> bool {
    exists|requests: Seq<PendingRequest>| to == #[trigger] run(from, requests, owner, with_host)
}

/// Whether `to` is what becomes of `from` when scripts have run one after
/// the other for the plugins `owners`, each with the host at hand, and what
/// each asked for was applied for its plugin when it returned.
pub open spec fn turns(from: EngineState, to: EngineState, owners: Seq<String>) -> bool
    decreases owners.len(),
{
    if owners.len() == 0 {
        to == from
    } else {
        exists|mid: EngineState|
            turns(from, mid, owners.drop_last()) && #[trigger] reachable(
                mid,
                to,
                owners.last(),
                true,
            )
    }
}

/// The plugins of the first `count` of `handlers`, in order.
pub open spec fn owners_of(handlers: Seq<EventHandlerEntry>, count: int) -> Seq<String> {
    Seq::new(count as nat, |i: int| handlers[i].plugin)
}

/// Whether `to` is what becomes of `from` when an event has been dispatched
/// to `handlers`: some of them, from the first on, were reached in order,
/// and what each asked for was applied for its plugin.
pub open spec fn dispatched(
    from: EngineState,
    to: EngineState,
    handlers: Seq<EventHandlerEntry>,
) -> bool {
    exists|reached: int|
        0 <= reached <= handlers.len() && #[trigger] turns(from, to, owners_of(handlers, reached))
}

/// Whether `to` is what becomes of `from` when a plugin's entry script has
/// run: what the script asked for is applied for the plugin, and the plugin
/// is resident if and only if the load succeeded (`ok`).
pub open spec fn loaded_from(from: EngineState, to: EngineState, plugin: Plugin, ok: bool) -> bool {
    exists|requests: Seq<PendingRequest>|
        to == if ok {
            (#[trigger] run(from, requests, plugin.metadata.name, false)).with_plugin(plugin)
        } else {
            run(from, requests, plugin.metadata.name, false)
        }
}

/// Whether `t` holds everything that `s` holds: the handlers of `s` come
/// first and in the same order, no command of `s` is forgotten, the plugin
/// table and the host's capabilities are the same, ids went upwards only,
/// and every interaction that is pending in `s` is pending in `t` with the
/// same callback, while none with an id that `s` had handed out was added.
pub open spec fn extends(s: EngineState, t: EngineState) -> bool {
    &&& t.wf()
    &&& s.handlers.is_prefix_of(t.handlers)
    &&& s.commands.dom().subset_of(t.commands.dom())
    &&& t.plugins == s.plugins
    &&& t.interactive == s.interactive
    &&& t.next_id >= s.next_id
    &&& forall|k: (Seq<char>, u64)|
        k.1 < s.next_id ==> (#[trigger] t.ui_callbacks.contains_key(k)
            <==> s.ui_callbacks.contains_key(k))
    &&& forall|k: (Seq<char>, u64)| #[trigger]
        s.ui_callbacks.contains_key(k) ==> t.ui_callbacks[k] == s.ui_callbacks[k]
}

/// Applying requests takes nothing away.
pub proof fn lemma_run_extends(
    s: EngineState,
    requests: Seq<PendingRequest>,
    owner: String,
    with_host: bool,
)
    requires
        s.wf(),
    ensures
        extends(s, run(s, requests, owner, with_host)),
    decreases requests.len(),
{
    if requests.len() > 0 {
        let next = step(s, requests[0], owner, with_host);
        assert(next.wf());
        lemma_run_extends(next, requests.skip(1), owner, with_host);
        let end = run(next, requests.skip(1), owner, with_host);
        assert(s.handlers.is_prefix_of(next.handlers));
        assert forall|k: (Seq<char>, u64)| k.1 < s.next_id implies (
        #[trigger] end.ui_callbacks.contains_key(k) <==> s.ui_callbacks.contains_key(k)) by {
            assert(k.1 < next.next_id);
        }
        assert forall|k: (Seq<char>, u64)| #[trigger]
            s.ui_callbacks.contains_key(k) implies end.ui_callbacks[k] == s.ui_callbacks[k] by {
            assert(next.ui_callbacks.contains_key(k));
        }
    }
}

/// What holds of a state holds of every state behind it.
pub proof fn lemma_extends_on(a: EngineState, b: EngineState, c: EngineState)
    requires
        a.wf(),
        extends(a, b),
        extends(b, c),
    ensures
        extends(a, c),
{
    assert forall|k: (Seq<char>, u64)| k.1 < a.next_id implies (
    #[trigger] c.ui_callbacks.contains_key(k) <==> a.ui_callbacks.contains_key(k)) by {
        assert(k.1 < b.next_id);
        assert(b.ui_callbacks.contains_key(k) <==> a.ui_callbacks.contains_key(k));
    }
    assert forall|k: (Seq<char>, u64)| #[trigger]
        a.ui_callbacks.contains_key(k) implies c.ui_callbacks[k] == a.ui_callbacks[k] by {
        assert(k.1 < a.next_id);
        assert(b.ui_callbacks.contains_key(k));
    }
}

/// Scripts that run one after the other take nothing away.
pub proof fn lemma_turns_extend(from: EngineState, to: EngineState, owners: Seq<String>)
    requires
        from.wf(),
        turns(from, to, owners),
    ensures
        extends(from, to),
    decreases owners.len(),
{
    if owners.len() > 0 {
        let mid = choose|mid: EngineState|
            turns(from, mid, owners.drop_last()) && #[trigger] reachable(
                mid,
                to,
                owners.last(),
                true,
            );
        lemma_turns_extend(from, mid, owners.drop_last());
        let requests = choose|requests: Seq<PendingRequest>|
            to == #[trigger] run(mid, requests, owners.last(), true);
        lemma_run_extends(mid, requests, owners.last(), true);
        lemma_extends_on(from, mid, to);
    }
}

/// One more script goes behind those that ran before it.
pub proof fn lemma_next_turn(
    from: EngineState,
    mid: EngineState,
    to: EngineState,
    owners: Seq<String>,
    owner: String,
)
    requires
        turns(from, mid, owners),
        reachable(mid, to, owner, true),
    ensures
        turns(from, to, owners.push(owner)),
{
    let longer = owners.push(owner);
    assert(longer.drop_last() =~= owners);
    assert(longer.last() == owner);
    assert(turns(from, mid, longer.drop_last()) && reachable(mid, to, longer.last(), true));
}

/// Registering a command name twice leaves the second registration in
/// force: the command found under the name is the second one, and the
/// engine is as if the first had never been registered.
pub proof fn law_second_registration_replaces(
    s: EngineState,
    first: PendingRequest,
    first_owner: String,
    second: PendingRequest,
    second_owner: String,
    with_host: bool,
)
    requires
        first is Command,
        second is Command,
        first->Command_metadata.name@ == second->Command_metadata.name@,
    ensures
        step(step(s, first, first_owner, with_host), second, second_owner, with_host).commands[second->Command_metadata.name@]
            == (CommandEntry {
            metadata: second->Command_metadata,
            plugin: second_owner,
            callback: second->Command_callback,
        }),
        step(step(s, first, first_owner, with_host), second, second_owner, with_host) == step(
            s,
            second,
            second_owner,
            with_host,
        ),
{
    let name = second->Command_metadata.name@;
    let entry = CommandEntry {
        metadata: second->Command_metadata,
        plugin: second_owner,
        callback: second->Command_callback,
    };
    assert(step(s, first, first_owner, with_host).commands.insert(name, entry)
        =~= s.commands.insert(name, entry));
}

/// An interaction that a script asks for during a dispatch is stored under
/// the plugin that the script runs for and the id that it is given, with the
/// callback that the script handed in; nothing else becomes pending.
pub proof fn law_request_is_keyed_by_plugin(s: EngineState, request: PendingRequest, owner: String)
    requires
        s.wf(),
        request is Prompt || request is Confirm || request is Picker,
        s.interactive,
        s.next_id < u64::MAX,
    ensures
        step(s, request, owner, true).ui_callbacks == s.ui_callbacks.insert(
            (owner@, s.next_id),
            request.callback(),
        ),
        step(s, request, owner, true).ui_callbacks[(owner@, s.next_id)] == request.callback(),
        !s.ui_callbacks.contains_key((owner@, s.next_id)),
        step(s, request, owner, true).next_id == s.next_id + 1,
{
}

/// Completing an interaction consumes it: whatever the callback asks for
/// while it runs, the interaction is no longer pending afterwards, so
/// completing it once more finds nothing and leaves the engine as it is.
pub proof fn law_completion_consumes(
    s: EngineState,
    plugin: String,
    id: u64,
    requests: Seq<PendingRequest>,
)
    requires
        s.wf(),
        s.ui_callbacks.contains_key((plugin@, id)),
    ensures
        !run(s.without_callback(plugin@, id), requests, plugin, true).ui_callbacks.contains_key(
            (plugin@, id),
        ),
        run(s.without_callback(plugin@, id), requests, plugin, true).without_callback(plugin@, id)
            == run(s.without_callback(plugin@, id), requests, plugin, true),
{
    let taken = s.without_callback(plugin@, id);
    lemma_run_extends(taken, requests, plugin, true);
    let after = run(taken, requests, plugin, true);
    assert(id < taken.next_id);
    assert(!taken.ui_callbacks.contains_key((plugin@, id)));
    assert(after.ui_callbacks.remove((plugin@, id)) =~= after.ui_callbacks);
}

/// After a reset everything behaves as never registered: no event type has
/// a handler, no command name is known, no interaction is pending and no
/// plugin is resident.
pub proof fn law_reset_forgets(
    s: EngineState,
    event_type: EventType,
    command: Seq<char>,
    plugin: Seq<char>,
    id: u64,
)
    ensures
        s.cleared().handlers_for(event_type).len() == 0,
        !s.cleared().commands.contains_key(command),
        !s.cleared().ui_callbacks.contains_key((plugin, id)),
        !s.cleared().plugins.contains_key(plugin),
        s.cleared().wf(),
{
    Seq::<EventHandlerEntry>::empty().lemma_filter_len(
        |e: EventHandlerEntry| e.event_type == event_type,
    );
}

/// A subscription goes behind every earlier handler of its event type,
/// whichever plugin makes it, and leaves the handlers of every other event
/// type as they were.
pub proof fn law_dispatch_order(
    s: EngineState,
    request: PendingRequest,
    owner: String,
    event_type: EventType,
    with_host: bool,
)
    requires
        request is Subscribe,
    ensures
        request->Subscribe_event_type == event_type ==> step(
            s,
            request,
            owner,
            with_host,
        ).handlers_for(event_type) == s.handlers_for(event_type).push(
            EventHandlerEntry {
                event_type,
                plugin: owner,
                callback: request->Subscribe_callback,
            },
        ),
        request->Subscribe_event_type != event_type ==> step(
            s,
            request,
            owner,
            with_host,
        ).handlers_for(event_type) == s.handlers_for(event_type),
{
    crate::registry::law_subscription_order(
        s.handlers,
        EventHandlerEntry {
            event_type: request->Subscribe_event_type,
            plugin: owner,
            callback: request->Subscribe_callback,
        },
        event_type,
    );
}

/// Where the entry script of a plugin comes from. The host reads the file
/// and hands in what it found.
pub enum EntrySource {
    /// There is no entry script at `location`.
    Missing { location: String },
    /// The entry script is there but could not be read.
    Unreadable { error: std::io::Error },
    /// The text of the entry script.
    Code { code: String },
}

/// What one event dispatch did.
pub struct DispatchReport {
    /// How many handlers were reached, counting the one that failed.
    pub reached: usize,
    /// `Ok`, or the failure that stopped the dispatch.
    pub outcome: Result<(), PluginError>,
}

/// The failure of a handler whose callback the interpreter no longer has.
pub fn retrieval_failure(plugin: &str, detail: &str) -> (e: PluginError)
    ensures
        e matches PluginError::EventHandlerError { plugin: p, error: m } && p@ == plugin@ && m@
            == "Failed to retrieve callback: "@ + detail@,
{
    PluginError::EventHandlerError {
        plugin: crate::text::owned(plugin),
        error: join2("Failed to retrieve callback: ", detail),
    }
}

/// The failure of a handler that raised an error.
pub fn handler_failure(plugin: &str, detail: &str) -> (e: PluginError)
    ensures
        e matches PluginError::EventHandlerError { plugin: p, error: m } && p@ == plugin@ && m@
            == "Handler execution failed: "@ + detail@,
{
    PluginError::EventHandlerError {
        plugin: crate::text::owned(plugin),
        error: join2("Handler execution failed: ", detail),
    }
}

/// Whether `e` is a failure of a handler of `plugin`.
pub open spec fn is_handler_failure_of(e: PluginError, plugin: Seq<char>) -> bool {
    e matches PluginError::EventHandlerError { plugin: p, error: m } && p@ == plugin && (
    "Failed to retrieve callback: "@.is_prefix_of(m@) || "Handler execution failed: "@.is_prefix_of(
        m@,
    ))
}

/// Whether `e` is a failure of one of `handlers`.
pub open spec fn is_failure_among(e: PluginError, handlers: Seq<EventHandlerEntry>) -> bool {
    exists|k: int| 0 <= k < handlers.len() && is_handler_failure_of(e, (#[trigger] handlers[k]).plugin@)
}

/// Whether `e` is the failure of a handler that was called and raised an
/// error.
pub open spec fn is_execution_failure(e: PluginError) -> bool {
    e matches PluginError::EventHandlerError { plugin: p, error: m }
        && "Handler execution failed: "@.is_prefix_of(m@)
}

/// Calls one handler with the payload of an event while the host is bound
/// for the handler's plugin. The host is reached only where the handler is
/// called: where its callback or its payload cannot be had, the host stays
/// as it is.
pub fn invoke_handler<H: 'static>(
    lua: &mlua::Lua,
    host: &mut H,
    entry: &EventHandlerEntry,
    payload: &EventPayload,
) -> (r: Result<(), PluginError>)
    ensures
        r matches Err(e) ==> e is LuaError || is_handler_failure_of(e, entry.plugin@),
        r matches Err(e) ==> is_execution_failure(e) || *final(host) == *old(host),
{
    let callback = match stored_function(lua, &entry.callback) {
        Ok(f) => f,
        Err(e) => {
            let detail = script_error_text(&e);
            return Err(retrieval_failure(entry.plugin.as_str(), detail.as_str()));
        },
    };
    let table = match payload_table(lua, payload) {
        Ok(t) => t,
        Err(e) => {
            return Err(e);
        },
    };
    let mut args: Vec<mlua::Value> = Vec::new();
    args.push(table_argument(table));
    match call_bound(lua, host, entry.plugin.as_str(), &callback, args) {
        Ok(()) => Ok(()),
        Err(e) => {
            let detail = script_error_text(&e);
            Err(handler_failure(entry.plugin.as_str(), detail.as_str()))
        },
    }
}

/// What `execute_command` reports for a name that is not registered.
pub fn unknown_command(name: &str) -> (e: PluginError)
    ensures
        e matches PluginError::CommandExecutionFailed(m) && m@ == "Command not found: "@ + name@,
{
    PluginError::CommandExecutionFailed(join2("Command not found: ", name))
}

/// Whether `r` is what `execute_command` reports for the unregistered name
/// `name`.
pub open spec fn is_unknown_command(r: Result<(), PluginError>, name: Seq<char>) -> bool {
    r matches Err(PluginError::CommandExecutionFailed(m)) && m@ == "Command not found: "@ + name
}

/// What `execute_command` reports where the interpreter no longer has the
/// command's callback.
pub fn command_unavailable(detail: &str) -> (e: PluginError)
    ensures
        e matches PluginError::CommandExecutionFailed(m) && m@ == "Failed to retrieve callback: "@
            + detail@,
{
    PluginError::CommandExecutionFailed(join2("Failed to retrieve callback: ", detail))
}

/// What `execute_command` reports where the command's callback failed.
pub fn command_failure(detail: &str) -> (e: PluginError)
    ensures
        e matches PluginError::CommandExecutionFailed(m) && m@ == "Execution failed: "@ + detail@,
{
    PluginError::CommandExecutionFailed(join2("Execution failed: ", detail))
}

/// Whether `e` is a failure of a command that is registered.
pub open spec fn is_command_failure(e: PluginError) -> bool {
    e matches PluginError::CommandExecutionFailed(m) && ("Failed to retrieve callback: "@.is_prefix_of(
        m@,
    ) || "Execution failed: "@.is_prefix_of(m@))
}

/// What `load_plugin` reports where the entry script is not at `location`.
pub fn missing_entry(location: &str) -> (e: PluginError)
    ensures
        e matches PluginError::InvalidPluginStructure(m) && m@ == "Entry file not found: "@
            + location@,
{
    PluginError::InvalidPluginStructure(join2("Entry file not found: ", location))
}

/// What the engine reports where the sandbox could not be installed.
pub fn sandbox_failure(detail: &str) -> (e: PluginError)
    ensures
        e matches PluginError::InitializationFailed(m) && m@ == "Failed to setup sandbox: "@
            + detail@,
{
    PluginError::InitializationFailed(join2("Failed to setup sandbox: ", detail))
}

/// The script that takes from an interpreter what plugins must not have:
/// the means to run processes and to end the host, to open files, and to
/// load code from files.
pub fn sandbox_script() -> (r: &'static str)
    ensures
        r@ == "os.execute = nil\nos.exit = nil\nio = nil\nloadfile = nil\ndofile = nil\n"@,
{
    "os.execute = nil\nos.exit = nil\nio = nil\nloadfile = nil\ndofile = nil\n"
}

/// The name under which the sandbox script is run.
pub fn sandbox_name() -> (r: &'static str)
    ensures
        r@ == "sandbox"@,
{
    "sandbox"
}

/// Makes an interpreter and runs the sandbox script in it.
fn sandboxed_interpreter() -> (r: Result<mlua::Lua, PluginError>)
    ensures
        r matches Err(e) ==> e is InitializationFailed,
{
    let lua = new_interpreter();
    match run_chunk(&lua, sandbox_script(), sandbox_name()) {
        Ok(()) => Ok(lua),
        Err(e) => {
            let detail = script_error_text(&e);
            Err(sandbox_failure(detail.as_str()))
        },
    }
}

/// The script engine. `H` is the host's state, which the engine hands to
/// callbacks and capabilities for the extent of one dispatch.
#[verifier::reject_recursive_types(H)]
pub struct LuaEngine<H> {
    /// The interpreter
    lua: mlua::Lua,
    /// Registered event handlers
    event_handlers: EventRegistry,
    /// Loaded plugins by name
    plugins: PluginTable,
    /// Registered commands
    commands: CommandRegistry,
    /// The host's command capability
    builtin_commands: Option<Arc<CommandRegistryWrapper<H>>>,
    /// Callbacks of pending interactions, and the source of their ids
    ui_callbacks: UiCallbackRegistry,
    /// The host's presentation capability
    ui_handler: Option<UiHandlerWrapper<H>>,
}

impl<H: 'static> LuaEngine<H> {
    /// What the engine holds.
    pub closed spec fn view(&self) -> EngineState {
        EngineState {
            handlers: self.event_handlers@,
            commands: self.commands@,
            ui_callbacks: self.ui_callbacks@,
            next_id: self.ui_callbacks.next_id(),
            plugins: self.plugins@,
            interactive: self.ui_handler is Some,
        }
    }

    /// The interpreter that the engine runs scripts in.
    pub closed spec fn interpreter(&self) -> mlua::Lua {
        self.lua
    }

    /// The command capability that the host has handed in.
    pub closed spec fn builtin_commands(&self) -> Option<CommandRegistryWrapper<H>> {
        match self.builtin_commands {
            Some(registry) => Some(*registry),
            None => None,
        }
    }

    /// The presentation capability that the host has handed in.
    pub closed spec fn ui_handler(&self) -> Option<UiHandlerWrapper<H>> {
        self.ui_handler
    }

    /// Whether the host has handed in its command capability.
    pub open spec fn has_builtin_commands(&self) -> bool {
        self.builtin_commands() is Some
    }

    /// Creates an engine with a sandboxed interpreter and nothing registered.
    /// It fails with `InitializationFailed` where the sandbox cannot be
    /// installed.
    pub fn new() -> (r: Result<Self, PluginError>)
        ensures
            r matches Ok(engine) ==> engine@ == EngineState::fresh() && engine.builtin_commands()
                is None && engine.ui_handler() is None,
            r matches Err(e) ==> e is InitializationFailed,
    {
        match sandboxed_interpreter() {
            Err(e) => Err(e),
            Ok(lua) => Ok(
                LuaEngine {
                    lua,
                    event_handlers: EventRegistry::new(),
                    plugins: PluginTable::new(),
                    commands: CommandRegistry::new(),
                    builtin_commands: None,
                    ui_callbacks: UiCallbackRegistry::new(),
                    ui_handler: None,
                },
            ),
        }
    }

    /// Replaces the interpreter by a fresh, sandboxed one and forgets every
    /// handler, command, pending interaction and resident plugin. Handles
    /// issued before the reset are gone with the old interpreter. Where the
    /// new interpreter cannot be set up the engine stays as it was.
    pub fn reset(&mut self) -> (r: Result<(), PluginError>)
        ensures
            r is Ok ==> final(self)@ == old(self)@.cleared(),
            r matches Err(e) ==> e is InitializationFailed && final(self)@ == old(self)@
                && final(self).interpreter() == old(self).interpreter(),
            final(self).builtin_commands() == old(self).builtin_commands(),
            final(self).ui_handler() == old(self).ui_handler(),
            final(self)@.wf(),
    {
        let _issued = self.next_callback_id();
        match sandboxed_interpreter() {
            Err(e) => Err(e),
            Ok(lua) => {
                self.lua = lua;
                self.event_handlers.clear();
                self.commands.clear();
                self.plugins.clear();
                self.ui_callbacks.clear();
                Ok(())
            },
        }
    }

    /// Hands in the host's command capability.
    pub fn set_builtin_command_registry(&mut self, registry: CommandRegistryWrapper<H>)
        ensures
            final(self)@ == old(self)@,
            final(self).builtin_commands() == Some(registry),
            final(self).ui_handler() == old(self).ui_handler(),
            final(self).interpreter() == old(self).interpreter(),
    {
        self.builtin_commands = Some(Arc::new(registry));
    }

    /// Hands in the host's capability to present interactions.
    pub fn set_ui_handler(&mut self, handler: UiHandlerWrapper<H>)
        ensures
            final(self)@ == (EngineState { interactive: true, ..old(self)@ }),
            final(self).ui_handler() == Some(handler),
            final(self).builtin_commands() == old(self).builtin_commands(),
            final(self).interpreter() == old(self).interpreter(),
    {
        self.ui_handler = Some(handler);
    }

    /// The id that the next interaction gets. Every pending interaction has
    /// a smaller one.
    pub fn next_callback_id(&self) -> (id: u64)
        ensures
            id == self@.next_id,
            self@.wf(),
    {
        self.ui_callbacks.peek()
    }

    /// The interpreter (for advanced operations).
    pub fn lua(&self) -> (r: &mlua::Lua)
        ensures
            *r == self.interpreter(),
    {
        &self.lua
    }

    /// The resident plugins.
    pub fn plugins(&self) -> (r: &PluginTable)
        ensures
            r@ == self@.plugins,
    {
        &self.plugins
    }

    /// The metadata of every registered command, each once.
    pub fn get_commands(&self) -> (r: Vec<CommandMetadata>)
        ensures
            r@.len() == self@.commands.len(),
            forall|i: int|
                0 <= i < r@.len() ==> self@.commands.contains_key((#[trigger] r@[i]).name@)
                    && self@.commands[r@[i].name@].metadata == r@[i],
            forall|i: int, j: int|
                0 <= i < j < r@.len() ==> (#[trigger] r@[i]).name@ != (#[trigger] r@[j]).name@,
    {
        self.commands.list()
    }

    /// Publishes the functions that scripts call into the interpreter's
    /// globals, under the names of [`ApiName`]: `helix.on`,
    /// `helix.register_command`, `helix.get_config`,
    /// `helix.editor.execute_command`, `helix.ui.prompt`, `helix.ui.confirm`,
    /// `helix.ui.picker`, and the text `helix.version`. The command
    /// capability that the host has handed in by then is the one that scripts
    /// reach. It is called once per interpreter, and again after a reset.
    pub fn register_api(&self, config: PluginConfig) -> (r: Result<(), PluginError>)
        ensures
            r matches Err(e) ==> e is LuaError,
    {
        let _installed = queue_install(&self.lua);
        match self.build_api(config) {
            Ok(()) => Ok(()),
            Err(e) => Err(PluginError::LuaError(e)),
        }
    }

    fn build_api(&self, config: PluginConfig) -> (r: Result<(), mlua::Error>) {
        let helix = new_table(&self.lua)?;
        install_subscribe(&self.lua, &helix, ApiName::On.as_str())?;
        install_register_command(&self.lua, &helix, ApiName::RegisterCommand.as_str())?;
        install_get_config(&self.lua, &helix, ApiName::GetConfig.as_str(), config)?;
        let editor = new_table(&self.lua)?;
        let registry = match &self.builtin_commands {
            Some(r) => Some(share_registry(r)),
            None => None,
        };
        install_execute_command(&self.lua, &editor, ApiName::ExecuteCommand.as_str(), registry)?;
        table_set_table(&helix, ApiName::Editor.as_str(), editor)?;
        let ui = new_table(&self.lua)?;
        install_prompt(&self.lua, &ui, ApiName::Prompt.as_str())?;
        install_confirm(&self.lua, &ui, ApiName::Confirm.as_str())?;
        install_picker(&self.lua, &ui, ApiName::Picker.as_str())?;
        table_set_table(&helix, ApiName::Ui.as_str(), ui)?;
        table_set_text(&helix, ApiName::Version.as_str(), api_version())?;
        set_global_table(&self.lua, ApiName::Root.as_str(), helix)
    }

    /// Registers the callback of an interaction of the plugin `owner` and
    /// returns its id, where the host can present interactions and an id is
    /// left.
    fn admit_interaction(&mut self, owner: &String, callback: mlua::RegistryKey) -> (r: Option<u64>)
        ensures
            old(self)@.interactive && old(self)@.next_id < u64::MAX ==> r == Some(
                old(self)@.next_id,
            ) && final(self)@ == (EngineState {
                ui_callbacks: old(self)@.ui_callbacks.insert(
                    (owner@, old(self)@.next_id),
                    callback,
                ),
                next_id: (old(self)@.next_id + 1) as u64,
                ..old(self)@
            }),
            !(old(self)@.interactive && old(self)@.next_id < u64::MAX) ==> r is None && final(self)@
                == old(self)@,
            final(self).builtin_commands() == old(self).builtin_commands(),
            final(self).ui_handler() == old(self).ui_handler(),
            final(self).interpreter() == old(self).interpreter(),
    {
        if self.ui_handler.is_some() {
            self.ui_callbacks.register(owner.clone(), callback)
        } else {
            None
        }
    }

    /// Applies one request of a script that ran for the plugin `owner`. An
    /// interaction that is admitted is handed to the host's presentation
    /// capability with the plugin and the id under which it is pending.
    fn apply_one(&mut self, host: &mut H, owner: &String, request: PendingRequest)
        ensures
            final(self)@ == step(old(self)@, request, *owner, true),
            final(self).builtin_commands() == old(self).builtin_commands(),
            final(self).ui_handler() == old(self).ui_handler(),
            final(self).interpreter() == old(self).interpreter(),
    {
        match request {
            PendingRequest::Subscribe { event_type, callback } => {
                self.event_handlers.subscribe(event_type, owner.clone(), callback);
            },
            PendingRequest::Command { metadata, callback } => {
                self.commands.register(metadata, owner.clone(), callback);
            },
            PendingRequest::Prompt { message, default, callback } => {
                match self.admit_interaction(owner, callback) {
                    Some(id) => match &self.ui_handler {
                        Some(handler) => {
                            handler.0.prompt(host, message, default, owner.clone(), id);
                        },
                        None => {},
                    },
                    None => {},
                }
            },
            PendingRequest::Confirm { message, callback } => {
                match self.admit_interaction(owner, callback) {
                    Some(id) => match &self.ui_handler {
                        Some(handler) => {
                            handler.0.confirm(host, message, owner.clone(), id);
                        },
                        None => {},
                    },
                    None => {},
                }
            },
            PendingRequest::Picker { items, prompt, callback } => {
                match self.admit_interaction(owner, callback) {
                    Some(id) => match &self.ui_handler {
                        Some(handler) => {
                            handler.0.picker(host, items, prompt, owner.clone(), id);
                        },
                        None => {},
                    },
                    None => {},
                }
            },
        }
    }

    /// Applies what a script that ran for the plugin `owner` asked for
    /// during a dispatch, in the order in which it asked.
    fn apply_pending(&mut self, host: &mut H, owner: &String, pending: VecDeque<PendingRequest>)
        ensures
            final(self)@ == run(old(self)@, pending@, *owner, true),
            final(self).builtin_commands() == old(self).builtin_commands(),
            final(self).ui_handler() == old(self).ui_handler(),
            final(self).interpreter() == old(self).interpreter(),
    {
        let mut pending = pending;
        let ghost all = pending@;
        while pending.len() > 0
            invariant
                run(self@, pending@, *owner, true) == run(old(self)@, all, *owner, true),
                self.builtin_commands() == old(self).builtin_commands(),
                self.ui_handler() == old(self).ui_handler(),
                self.interpreter() == old(self).interpreter(),
            decreases pending@.len(),
        {
            let ghost before = pending@;
            match pending.pop_front() {
                Some(request) => {
                    assert(pending@ =~= before.skip(1));
                    self.apply_one(host, owner, request);
                },
                None => {},
            }
        }
    }

    /// Applies what the entry script of the plugin `owner` asked for while
    /// it was loaded. No dispatch is active then, so a request for an
    /// interaction is dropped.
    fn apply_registrations(&mut self, owner: &String, pending: VecDeque<PendingRequest>)
        ensures
            final(self)@ == run(old(self)@, pending@, *owner, false),
            final(self).builtin_commands() == old(self).builtin_commands(),
            final(self).ui_handler() == old(self).ui_handler(),
            final(self).interpreter() == old(self).interpreter(),
    {
        let mut pending = pending;
        let ghost all = pending@;
        while pending.len() > 0
            invariant
                run(self@, pending@, *owner, false) == run(old(self)@, all, *owner, false),
                self.builtin_commands() == old(self).builtin_commands(),
                self.ui_handler() == old(self).ui_handler(),
                self.interpreter() == old(self).interpreter(),
            decreases pending@.len(),
        {
            let ghost before = pending@;
            match pending.pop_front() {
                Some(request) => {
                    assert(pending@ =~= before.skip(1));
                    match request {
                        PendingRequest::Subscribe { event_type, callback } => {
                            self.event_handlers.subscribe(event_type, owner.clone(), callback);
                        },
                        PendingRequest::Command { metadata, callback } => {
                            self.commands.register(metadata, owner.clone(), callback);
                        },
                        _ => {},
                    }
                },
                None => {},
            }
        }
    }

    /// Fires an event: the handlers registered for the event's type when the
    /// dispatch starts are called one after the other, in the order in which
    /// they subscribed, each with the host bound for its plugin and with a
    /// fresh payload. The first handler that fails stops the dispatch. What a
    /// handler asked for while it ran is applied for its plugin when it
    /// returns; a subscription made during the dispatch counts from the next
    /// dispatch on.
    pub fn dispatch_event(&mut self, host: &mut H, event: &PluginEvent) -> (r: DispatchReport)
        ensures
            r.reached <= old(self)@.handlers_for(event.event_type).len(),
            r.outcome is Ok ==> r.reached == old(self)@.handlers_for(event.event_type).len(),
            r.outcome matches Err(e) ==> r.reached >= 1 && (e is LuaError || is_handler_failure_of(
                e,
                old(self)@.handlers_for(event.event_type)[r.reached - 1].plugin@,
            )),
            old(self)@.handlers_for(event.event_type).len() == 0 ==> *final(host) == *old(host)
                && final(self)@ == old(self)@,
            turns(
                old(self)@,
                final(self)@,
                owners_of(old(self)@.handlers_for(event.event_type), r.reached as int),
            ),
            final(self).builtin_commands() == old(self).builtin_commands(),
            final(self).ui_handler() == old(self).ui_handler(),
            final(self).interpreter() == old(self).interpreter(),
            final(self)@.wf(),
    {
        let _issued = self.next_callback_id();
        let positions = self.event_handlers.positions(event.event_type);
        let payload = event_payload(event);
        let ghost start = self@;
        let ghost handlers = self@.handlers_for(event.event_type);
        assert(handlers == self.event_handlers.handlers(event.event_type));
        let ghost all = self.event_handlers@;
        let mut reached: usize = 0;
        let mut outcome: Result<(), PluginError> = Ok(());
        let mut failed = false;
        assert(owners_of(handlers, 0) =~= Seq::<String>::empty());
        while reached < positions.len() && !failed
            invariant
                reached <= positions@.len(),
                positions@.len() == handlers.len(),
                located(positions@, all, handlers),
                all.is_prefix_of(self.event_handlers@),
                start.wf(),
                self@.wf(),
                turns(start, self@, owners_of(handlers, reached as int)),
                reached == 0 ==> self@ == start,
                failed == (outcome is Err),
                outcome matches Err(e) ==> reached >= 1 && (e is LuaError || is_handler_failure_of(
                    e,
                    handlers[reached - 1].plugin@,
                )),
                handlers.len() == 0 ==> *host == *old(host),
                self.builtin_commands() == old(self).builtin_commands(),
                self.ui_handler() == old(self).ui_handler(),
                self.interpreter() == old(self).interpreter(),
            decreases positions@.len() - reached + (if failed { 0int } else { 1int }),
        {
            let ghost before = self@;
            let entry = self.event_handlers.entry(positions[reached]);
            assert(*entry == handlers[reached as int]);
            let owner = entry.plugin.clone();
            outcome = invoke_handler(&self.lua, host, entry, &payload);
            failed = outcome.is_err();
            let pending = drain(&self.lua);
            self.apply_pending(host, &owner, pending);
            proof {
                lemma_run_extends(before, pending@, owner, true);
                lemma_next_turn(
                    start,
                    before,
                    self@,
                    owners_of(handlers, reached as int),
                    owner,
                );
                assert(owners_of(handlers, reached + 1) =~= owners_of(handlers, reached as int).push(
                    owner,
                ));
            }
            reached += 1;
        }
        DispatchReport { reached, outcome }
    }

    /// Call all event handlers for a given event, in subscription order; the
    /// first failure stops the dispatch and is returned.
    pub fn call_event_handlers(&mut self, host: &mut H, event: &PluginEvent) -> (r: Result<
        (),
        PluginError,
    >)
        ensures
            r matches Err(e) ==> e is LuaError || is_failure_among(
                e,
                old(self)@.handlers_for(event.event_type),
            ),
            old(self)@.handlers_for(event.event_type).len() == 0 ==> r is Ok && *final(host) == *old(
                host,
            ) && final(self)@ == old(self)@,
            dispatched(old(self)@, final(self)@, old(self)@.handlers_for(event.event_type)),
            final(self).builtin_commands() == old(self).builtin_commands(),
            final(self).ui_handler() == old(self).ui_handler(),
            final(self).interpreter() == old(self).interpreter(),
            final(self)@.wf(),
    {
        let report = self.dispatch_event(host, event);
        report.outcome
    }

    /// Runs the command registered under `name` with `args` as its
    /// positional arguments, with the host bound for the plugin that
    /// registered the command. What the command asks for while it runs is
    /// applied for that plugin. An unregistered name fails and touches
    /// neither the engine nor the host.
    pub fn execute_command(&mut self, host: &mut H, name: &str, args: Vec<String>) -> (r: Result<
        (),
        PluginError,
    >)
        ensures
            !old(self)@.commands.contains_key(name@) ==> is_unknown_command(r, name@) && final(self)@
                == old(self)@ && *final(host) == *old(host),
            old(self)@.commands.contains_key(name@) ==> (r matches Err(e) ==> is_command_failure(e))
                && reachable(
                old(self)@,
                final(self)@,
                old(self)@.commands[name@].plugin,
                true,
            ),
            final(self).builtin_commands() == old(self).builtin_commands(),
            final(self).ui_handler() == old(self).ui_handler(),
            final(self).interpreter() == old(self).interpreter(),
            final(self)@.wf(),
    {
        let _issued = self.next_callback_id();
        let found = match self.commands.lookup(name) {
            Some(entry) => Some((stored_function(&self.lua, &entry.callback), entry.plugin.clone())),
            None => None,
        };
        let (callback, owner) = match found {
            None => {
                return Err(unknown_command(name));
            },
            Some((Err(e), owner)) => {
                assert(self@ == run(self@, Seq::<PendingRequest>::empty(), owner, true));
                let detail = script_error_text(&e);
                return Err(command_unavailable(detail.as_str()));
            },
            Some((Ok(f), owner)) => (f, owner),
        };
        let outcome = match self.positional(&args) {
            Ok(values) => call_bound(&self.lua, host, owner.as_str(), &callback, values),
            Err(e) => Err(e),
        };
        let pending = drain(&self.lua);
        let ghost before = self@;
        self.apply_pending(host, &owner, pending);
        proof {
            lemma_run_extends(before, pending@, owner, true);
        }
        match outcome {
            Ok(()) => Ok(()),
            Err(e) => {
                let detail = script_error_text(&e);
                Err(command_failure(detail.as_str()))
            },
        }
    }

    /// The arguments of a command as values of the interpreter, one for each
    /// text, in order.
    fn positional(&self, args: &Vec<String>) -> (r: Result<Vec<mlua::Value>, mlua::Error>)
        ensures
            r matches Ok(values) ==> values@.len() == args@.len(),
            args@.len() == 0 ==> r is Ok,
    {
        let mut values: Vec<mlua::Value> = Vec::new();
        let mut i: usize = 0;
        while i < args.len()
            invariant
                i <= args@.len(),
                values@.len() == i,
            decreases args@.len() - i,
        {
            let value = text_argument(&self.lua, args[i].as_str())?;
            values.push(value);
            i += 1;
        }
        Ok(values)
    }

    /// Completes the interaction `(plugin_name, callback_id)`: its callback
    /// is taken out of the registry and called once with `value`, with the
    /// host bound for the plugin. What the callback asks for while it runs is
    /// applied for the plugin. A pair that is not pending does nothing and is
    /// no error.
    pub fn handle_ui_callback(
        &mut self,
        host: &mut H,
        plugin_name: String,
        callback_id: u64,
        value: serde_json::Value,
    ) -> (r: Result<(), PluginError>)
        ensures
            !old(self)@.ui_callbacks.contains_key((plugin_name@, callback_id)) ==> r is Ok && final(self)@ == old(self)@ && *final(host) == *old(host),
            r matches Err(e) ==> e is LuaError,
            reachable(
                old(self)@.without_callback(plugin_name@, callback_id),
                final(self)@,
                plugin_name,
                true,
            ),
            !final(self)@.ui_callbacks.contains_key((plugin_name@, callback_id)),
            final(self).builtin_commands() == old(self).builtin_commands(),
            final(self).ui_handler() == old(self).ui_handler(),
            final(self).interpreter() == old(self).interpreter(),
            final(self)@.wf(),
    {
        let _issued = self.next_callback_id();
        let ghost start = self@;
        let key = match self.ui_callbacks.take(plugin_name.as_str(), callback_id) {
            Some(k) => k,
            None => {
                proof {
                    assert(start.ui_callbacks.remove((plugin_name@, callback_id))
                        =~= start.ui_callbacks);
                    assert(self@ == run(
                        start.without_callback(plugin_name@, callback_id),
                        Seq::<PendingRequest>::empty(),
                        plugin_name,
                        true,
                    ));
                }
                return Ok(());
            },
        };
        let ghost taken = self@;
        assert(taken == start.without_callback(plugin_name@, callback_id));
        let outcome = match stored_function(&self.lua, &key) {
            Err(e) => Err(e),
            Ok(callback) => match json_argument(&self.lua, &value) {
                Err(e) => Err(e),
                Ok(v) => {
                    let mut args: Vec<mlua::Value> = Vec::new();
                    args.push(v);
                    call_bound(&self.lua, host, plugin_name.as_str(), &callback, args)
                },
            },
        };
        let pending = drain(&self.lua);
        self.apply_pending(host, &plugin_name, pending);
        proof {
            lemma_run_extends(taken, pending@, plugin_name, true);
            if callback_id >= taken.next_id {
                assert(!self@.ui_callbacks.contains_key((plugin_name@, callback_id)));
            }
        }
        match outcome {
            Ok(()) => Ok(()),
            Err(e) => Err(PluginError::LuaError(e)),
        }
    }

    /// Loads a plugin: runs its entry script with the plugin named as the
    /// one that is running. What the script asks for is applied for the
    /// plugin. The name is cleared again on every way out. The plugin
    /// becomes resident only where its script ran to the end; what the
    /// script registered before it failed stays registered.
    pub fn load_plugin(&mut self, plugin: Plugin, entry: EntrySource) -> (r: Result<
        (),
        PluginError,
    >)
        ensures
            entry matches EntrySource::Missing { location } ==> (r matches Err(
                PluginError::InvalidPluginStructure(m),
            ) && m@ == "Entry file not found: "@ + location@) && final(self)@ == old(self)@,
            entry matches EntrySource::Unreadable { error } ==> r == Err::<(), PluginError>(
                PluginError::IoError(error),
            ) && final(self)@ == old(self)@,
            entry is Code ==> (r matches Err(e) ==> e is LuaError),
            r is Err ==> final(self)@.plugins == old(self)@.plugins,
            r is Ok ==> final(self)@.plugins == old(self)@.plugins.insert(
                plugin.metadata.name@,
                plugin,
            ),
            loaded_from(old(self)@, final(self)@, plugin, r is Ok),
            final(self).builtin_commands() == old(self).builtin_commands(),
            final(self).ui_handler() == old(self).ui_handler(),
            final(self).interpreter() == old(self).interpreter(),
            final(self)@.wf(),
    {
        let _issued = self.next_callback_id();
        let ghost start = self@;
        let ghost owner = plugin.metadata.name;
        let code = match entry {
            EntrySource::Missing { location } => {
                assert(self@ == run(start, Seq::<PendingRequest>::empty(), owner, false));
                return Err(missing_entry(location.as_str()));
            },
            EntrySource::Unreadable { error } => {
                assert(self@ == run(start, Seq::<PendingRequest>::empty(), owner, false));
                return Err(PluginError::IoError(error));
            },
            EntrySource::Code { code } => code,
        };
        match set_global_text(&self.lua, current_plugin_global(), plugin.metadata.name.as_str()) {
            Ok(()) => {},
            Err(e) => {
                assert(self@ == run(start, Seq::<PendingRequest>::empty(), owner, false));
                return Err(PluginError::LuaError(e));
            },
        }
        let ran = run_chunk(&self.lua, code.as_str(), plugin.metadata.name.as_str());
        let cleared = clear_global(&self.lua, current_plugin_global());
        let pending = drain(&self.lua);
        self.apply_registrations(&plugin.metadata.name, pending);
        proof {
            lemma_run_extends(start, pending@, owner, false);
        }
        match ran {
            Err(e) => Err(PluginError::LuaError(e)),
            Ok(()) => match cleared {
                Err(e) => Err(PluginError::LuaError(e)),
                Ok(()) => {
                    self.plugins.insert(plugin);
                    Ok(())
                },
            },
        }
    }
}

} // verus!
