//! The functions that scripts call. Each one checks what it is given and
//! leaves a request for the engine, which applies the pending requests to
//! its registries when the script returns.

use vstd::prelude::*;
use std::collections::VecDeque;
use std::sync::Arc;
use crate::error::PluginError;
use crate::text::join2;
use crate::text::owned;
use crate::types::CommandMetadata;
use crate::types::CommandRegistryWrapper;
use crate::types::EventType;
use crate::types::PluginConfig;
use crate::types::event_named;
use crate::vm::JsonScalar;
use crate::binding::current_plugin_global;
use crate::binding::host_is_bound;
use crate::binding::host_slot;
use crate::vm::global_text;
use crate::vm::stored_handle;
use crate::vm::json_members;
use crate::vm::json_scalar;
use crate::vm::new_table;
use crate::vm::script_failure;
use crate::vm::store_function;
use crate::vm::table_function;
use crate::vm::table_optional_text;
use crate::vm::table_optional_texts;
use crate::vm::table_set_flag;
use crate::vm::table_set_number;
use crate::vm::table_set_text;
use crate::vm::table_text;

pub mod buffer;
pub mod editor;

verus! {

/// What a script asked for while it ran, waiting for the engine to apply it.
/// The engine applies it for the plugin that the script ran for.
pub enum PendingRequest {
    /// Subscribe `callback` to an event.
    Subscribe { event_type: EventType, callback: mlua::RegistryKey },
    /// Register a command.
    Command { metadata: CommandMetadata, callback: mlua::RegistryKey },
    /// Ask the user for a line of text.
    Prompt { message: String, default: Option<String>, callback: mlua::RegistryKey },
    /// Ask the user to confirm.
    Confirm { message: String, callback: mlua::RegistryKey },
    /// Let the user pick one of `items`.
    Picker { items: Vec<String>, prompt: String, callback: mlua::RegistryKey },
}

impl PendingRequest {
    /// The handle of the script function that the request brings.
    pub open spec fn callback(self) -> mlua::RegistryKey {
        match self {
            PendingRequest::Subscribe { callback, .. } => callback,
            PendingRequest::Command { callback, .. } => callback,
            PendingRequest::Prompt { callback, .. } => callback,
            PendingRequest::Confirm { callback, .. } => callback,
            PendingRequest::Picker { callback, .. } => callback,
        }
    }
}

/// The names under which the engine publishes its functions to scripts.
#[derive(Debug, Clone, Copy, PartialEq, Eq, Structural)]
pub enum ApiName {
    /// The table that holds everything else.
    Root,
    /// Subscribes to an event.
    On,
    /// Registers a command.
    RegisterCommand,
    /// Gives a plugin its configuration.
    GetConfig,
    /// The table of editor functions.
    Editor,
    /// Runs a command of the host.
    ExecuteCommand,
    /// The table of interactions.
    Ui,
    /// Asks for a line of text.
    Prompt,
    /// Asks for a confirmation.
    Confirm,
    /// Lets the user pick.
    Picker,
    /// The version of the API.
    Version,
}

impl ApiName {
    /// The name as scripts write it.
    pub open spec fn name(self) -> Seq<char> {
        match self {
            ApiName::Root => "helix"@,
            ApiName::On => "on"@,
            ApiName::RegisterCommand => "register_command"@,
            ApiName::GetConfig => "get_config"@,
            ApiName::Editor => "editor"@,
            ApiName::ExecuteCommand => "execute_command"@,
            ApiName::Ui => "ui"@,
            ApiName::Prompt => "prompt"@,
            ApiName::Confirm => "confirm"@,
            ApiName::Picker => "picker"@,
            ApiName::Version => "version"@,
        }
    }

    /// The name as scripts write it.
    pub fn as_str(&self) -> (r: &'static str)
        ensures
            r@ == self.name(),
    {
        match self {
            ApiName::Root => "helix",
            ApiName::On => "on",
            ApiName::RegisterCommand => "register_command",
            ApiName::GetConfig => "get_config",
            ApiName::Editor => "editor",
            ApiName::ExecuteCommand => "execute_command",
            ApiName::Ui => "ui",
            ApiName::Prompt => "prompt",
            ApiName::Confirm => "confirm",
            ApiName::Picker => "picker",
            ApiName::Version => "version",
        }
    }
}

/// The version of the API, which scripts find under `helix.version`.
pub fn api_version() -> (r: &'static str)
    ensures
        r@ == "0.1.0"@,
{
    "0.1.0"
}

/// `mlua::Lua::try_set_app_data`: gives the interpreter an empty queue of
/// pending requests, in place of any queue it had. It returns whether the
/// interpreter took the queue.
#[verifier::external_body]
pub(crate) fn queue_install(lua: &mlua::Lua) -> (installed: bool) {
    lua.try_set_app_data(VecDeque::<PendingRequest>::new()).is_ok()
}

/// `mlua::Lua::try_app_data_mut` and `core::mem::replace`: puts
/// `replacement` in the place of the interpreter's queue and hands the queue
/// out. It is `None` where the interpreter has no queue or the queue is in
/// use; `replacement` is dropped then.
#[verifier::external_body]
pub(crate) fn queue_swap(lua: &mlua::Lua, replacement: VecDeque<PendingRequest>) -> (taken: Option<
    VecDeque<PendingRequest>,
>) {
    lua.try_app_data_mut::<VecDeque<PendingRequest>>().ok().flatten().map(
        |mut queue| core::mem::replace(&mut *queue, replacement),
    )
}

/// Puts `request` at the end of the interpreter's queue. It returns whether
/// the request was queued; it is not where the interpreter has no queue.
pub(crate) fn enqueue(lua: &mlua::Lua, request: PendingRequest) -> (queued: bool) {
    match queue_swap(lua, VecDeque::new()) {
        None => false,
        Some(queue) => {
            let mut queue = queue;
            queue.push_back(request);
            queue_swap(lua, queue).is_some()
        },
    }
}

/// Takes everything out of the interpreter's queue, in the order in which
/// it was put in. What the queue holds depends on what scripts did since it
/// was last emptied.
pub(crate) fn drain(lua: &mlua::Lua) -> (taken: VecDeque<PendingRequest>) {
    match queue_swap(lua, VecDeque::new()) {
        Some(queue) => queue,
        None => VecDeque::new(),
    }
}

/// What a script is told where it asks for something on an interpreter that
/// the API was not published to.
pub open spec fn not_published_message() -> Seq<char> {
    "The plugin API is not registered in this interpreter."@
}

/// What a request gives once it is on its way to the engine: it succeeds
/// where it was queued, and fails with `ApiAccessError` otherwise.
pub fn queued_or_refused(queued: bool) -> (r: Result<(), PluginError>)
    ensures
        queued ==> r is Ok,
        !queued ==> (r matches Err(PluginError::ApiAccessError(m)) && m@ == not_published_message()),
{
    if queued {
        Ok(())
    } else {
        Err(
            PluginError::ApiAccessError(
                owned("The plugin API is not registered in this interpreter."),
            ),
        )
    }
}

/// What a function that needs the host reports when no dispatch is active.
pub open spec fn no_dispatch_message() -> Seq<char> {
    "No active editor context. This function can only be called from within a plugin callback."@
}

/// Whether `r` is the failure of a call that needed an active dispatch and
/// found none.
pub open spec fn refused_without_dispatch(r: Result<(), PluginError>) -> bool {
    r matches Err(PluginError::ApiAccessError(m)) && m@ == no_dispatch_message()
}

/// Guards every function that reaches the host: the call goes through while
/// a dispatch is active and fails with `ApiAccessError` otherwise.
pub fn require_dispatch(bound: bool) -> (r: Result<(), PluginError>)
    ensures
        bound ==> r is Ok,
        !bound ==> refused_without_dispatch(r),
{
    if bound {
        Ok(())
    } else {
        Err(
            PluginError::ApiAccessError(
                owned(
                    "No active editor context. This function can only be called from within a plugin callback.",
                ),
            ),
        )
    }
}

/// The plugin that a request is made for: the one whose entry script is
/// running, else `unknown`.
pub fn plugin_or_unknown(ambient: Option<String>) -> (r: String)
    ensures
        ambient matches Some(n) ==> r@ == n@,
        ambient is None ==> r@ == "unknown"@,
{
    match ambient {
        Some(n) => n,
        None => owned("unknown"),
    }
}

/// The name of the plugin whose entry script is running in `lua`, else
/// `unknown`.
pub fn current_plugin(lua: &mlua::Lua) -> (r: String) {
    plugin_or_unknown(global_text(lua, current_plugin_global()))
}

/// Checks the name of an event at subscription time: a recognized name gives
/// its event type, any other name is rejected.
pub fn check_event_name(name: &str) -> (r: Result<EventType, String>)
    ensures
        event_named(name@) matches Some(t) ==> r == Ok::<EventType, String>(t),
        event_named(name@) is None ==> (r matches Err(m) && m@ == "Invalid event type: "@ + name@),
{
    match EventType::parse(name) {
        Some(t) => Ok(t),
        None => Err(join2("Invalid event type: ", name)),
    }
}

/// `helix.on(event_name, callback)`: asks to subscribe `callback` to an
/// event. An unknown event name is rejected here, before anything is stored.
/// It is for the interpreter to call, with a function of its own.
pub(crate) fn subscribe(lua: &mlua::Lua, event_name: String, callback: mlua::Function) -> (r: Result<
    (),
    mlua::Error,
>)
    ensures
        event_named(event_name@) is None ==> r is Err,
{
    let event_type = match check_event_name(event_name.as_str()) {
        Ok(t) => t,
        Err(m) => {
            return Err(script_failure(m));
        },
    };
    let key = match store_function(lua, callback) {
        Ok(k) => k,
        Err(e) => {
            return Err(e);
        },
    };
    let queued = enqueue(lua, PendingRequest::Subscribe { event_type, callback: key });
    match queued_or_refused(queued) {
        Ok(()) => Ok(()),
        Err(e) => Err(raise(e)),
    }
}

/// The metadata of a command as a script describes it: the documentation is
/// empty where the script gives none.
pub fn command_metadata(name: String, doc: Option<String>, args: Option<String>) -> (m:
    CommandMetadata)
    ensures
        m.name == name,
        m.args == args,
        doc matches Some(d) ==> m.doc == d,
        doc is None ==> m.doc@ == Seq::<char>::empty(),
{
    let doc = match doc {
        Some(d) => d,
        None => String::new(),
    };
    CommandMetadata { name, doc, args }
}

/// Judges what a script gave of a command. The name and the handler are
/// required, and the name is asked for first; the documentation is empty
/// where the script gives none.
pub fn described_command(
    name: Option<String>,
    doc: Option<String>,
    args: Option<String>,
    handler: Option<mlua::Function>,
) -> (r: Result<(CommandMetadata, mlua::Function), String>)
    ensures
        name is None ==> (r matches Err(m) && m@ == "Command name required"@),
        name is Some && handler is None ==> (r matches Err(m) && m@
            == "Command handler function required"@),
        name is Some && handler is Some ==> (r matches Ok(found) && found.1 == handler->0
            && found.0.name == name->0 && found.0.args == args && match doc {
            Some(d) => found.0.doc == d,
            None => found.0.doc@ == Seq::<char>::empty(),
        }),
{
    let name = match name {
        Some(n) => n,
        None => {
            return Err(owned("Command name required"));
        },
    };
    match handler {
        Some(h) => Ok((command_metadata(name, doc, args), h)),
        None => Err(owned("Command handler function required")),
    }
}

/// `helix.register_command { name, doc, args, handler }`: asks to register a
/// command. The name and the handler are required. It is for the
/// interpreter to call, with a table of its own.
pub(crate) fn register_command(lua: &mlua::Lua, description: mlua::Table) -> (r: Result<(), mlua::Error>) {
    let name = match table_text(&description, "name") {
        Ok(n) => Some(n),
        Err(_) => None,
    };
    let doc = match table_text(&description, "doc") {
        Ok(d) => Some(d),
        Err(_) => None,
    };
    let args = match table_text(&description, "args") {
        Ok(a) => Some(a),
        Err(_) => None,
    };
    let handler = match table_function(&description, "handler") {
        Ok(h) => Some(h),
        Err(_) => None,
    };
    let (metadata, handler) = match described_command(name, doc, args, handler) {
        Ok(found) => found,
        Err(m) => {
            return Err(script_failure(m));
        },
    };
    let key = match store_function(lua, handler) {
        Ok(k) => k,
        Err(e) => {
            return Err(e);
        },
    };
    let queued = enqueue(lua, PendingRequest::Command { metadata, callback: key });
    match queued_or_refused(queued) {
        Ok(()) => Ok(()),
        Err(e) => Err(raise(e)),
    }
}

/// Asks for a prompt on behalf of the running script. `bound` says whether a
/// dispatch is active; without one the request fails with `ApiAccessError`
/// and nothing is stored. It is for the interpreter to call, with a function
/// of its own.
pub(crate) fn request_prompt(
    lua: &mlua::Lua,
    bound: bool,
    message: String,
    default: Option<String>,
    callback: mlua::Function,
) -> (r: Result<(), PluginError>)
    ensures
        !bound ==> refused_without_dispatch(r),
        r matches Err(e) ==> e is ApiAccessError || e is LuaError,
{
    match require_dispatch(bound) {
        Ok(()) => {},
        Err(e) => {
            return Err(e);
        },
    }
    let key = match store_function(lua, callback) {
        Ok(k) => k,
        Err(e) => {
            return Err(PluginError::LuaError(e));
        },
    };
    let queued = enqueue(lua, PendingRequest::Prompt { message, default, callback: key });
    queued_or_refused(queued)
}

/// Asks for a confirmation on behalf of the running script. `bound` says
/// whether a dispatch is active; without one the request fails with
/// `ApiAccessError` and nothing is stored. It is for the interpreter to call,
/// with a function of its own.
pub(crate) fn request_confirm(lua: &mlua::Lua, bound: bool, message: String, callback: mlua::Function) -> (r:
    Result<(), PluginError>)
    ensures
        !bound ==> refused_without_dispatch(r),
        r matches Err(e) ==> e is ApiAccessError || e is LuaError,
{
    match require_dispatch(bound) {
        Ok(()) => {},
        Err(e) => {
            return Err(e);
        },
    }
    let key = match store_function(lua, callback) {
        Ok(k) => k,
        Err(e) => {
            return Err(PluginError::LuaError(e));
        },
    };
    let queued = enqueue(lua, PendingRequest::Confirm { message, callback: key });
    queued_or_refused(queued)
}

/// The texts that a script gives, else none.
pub fn texts_or_none(items: Option<Vec<String>>) -> (r: Vec<String>)
    ensures
        items matches Some(v) ==> r == v,
        items is None ==> r@.len() == 0,
{
    match items {
        Some(v) => v,
        None => Vec::new(),
    }
}

/// The prompt of a picker: the one the script gives, else `Select:`.
pub fn picker_prompt(prompt: Option<String>) -> (r: String)
    ensures
        prompt matches Some(p) ==> r == p,
        prompt is None ==> r@ == "Select:"@,
{
    match prompt {
        Some(p) => p,
        None => owned("Select:"),
    }
}

/// Asks for a picker on behalf of the running script, described by `options`
/// (`items`, `prompt`, `on_select`). `bound` says whether a dispatch is
/// active; without one the request fails with `ApiAccessError` and nothing
/// is stored. It is for the interpreter to call, with a table of its own.
pub(crate) fn request_picker(lua: &mlua::Lua, bound: bool, options: mlua::Table) -> (r: Result<
    (),
    PluginError,
>)
    ensures
        !bound ==> refused_without_dispatch(r),
        r matches Err(e) ==> e is ApiAccessError || e is LuaError,
{
    match require_dispatch(bound) {
        Ok(()) => {},
        Err(e) => {
            return Err(e);
        },
    }
    let items = match table_optional_texts(&options, "items") {
        Ok(i) => texts_or_none(i),
        Err(e) => {
            return Err(PluginError::LuaError(e));
        },
    };
    let prompt = match table_optional_text(&options, "prompt") {
        Ok(p) => picker_prompt(p),
        Err(e) => {
            return Err(PluginError::LuaError(e));
        },
    };
    let callback = match table_function(&options, "on_select") {
        Ok(c) => c,
        Err(_) => {
            return Err(PluginError::LuaError(script_failure(owned("on_select callback required"))));
        },
    };
    let key = match store_function(lua, callback) {
        Ok(k) => k,
        Err(e) => {
            return Err(PluginError::LuaError(e));
        },
    };
    let queued = enqueue(lua, PendingRequest::Picker { items, prompt, callback: key });
    queued_or_refused(queued)
}

/// How a failed request is raised in the script that made it: an error of
/// the interpreter goes back as it is, any other as a script error with the
/// error's message.
pub fn raise(e: PluginError) -> (r: mlua::Error)
    ensures
        e matches PluginError::LuaError(inner) ==> r == inner,
{
    match e {
        PluginError::LuaError(inner) => inner,
        other => script_failure(other.message()),
    }
}

/// `helix.ui.prompt(message, default, callback)`.
pub(crate) fn prompt(lua: &mlua::Lua, message: String, default: Option<String>, callback: mlua::Function) -> (r:
    Result<(), mlua::Error>) {
    let bound = host_is_bound(lua);
    match request_prompt(lua, bound, message, default, callback) {
        Ok(()) => Ok(()),
        Err(e) => Err(raise(e)),
    }
}

/// `helix.ui.confirm(message, callback)`.
pub(crate) fn confirm(lua: &mlua::Lua, message: String, callback: mlua::Function) -> (r: Result<
    (),
    mlua::Error,
>) {
    let bound = host_is_bound(lua);
    match request_confirm(lua, bound, message, callback) {
        Ok(()) => Ok(()),
        Err(e) => Err(raise(e)),
    }
}

/// `helix.ui.picker { items, prompt, on_select }`.
pub(crate) fn picker(lua: &mlua::Lua, options: mlua::Table) -> (r: Result<(), mlua::Error>) {
    let bound = host_is_bound(lua);
    match request_picker(lua, bound, options) {
        Ok(()) => Ok(()),
        Err(e) => Err(raise(e)),
    }
}

/// `<anyhow::Error as Display>::fmt`, through `to_string`: the host's wording
/// of the failure of one of its commands. Nothing is claimed of the text.
#[verifier::external_body]
pub(crate) fn host_error_text(e: &anyhow::Error) -> (text: String) {
    e.to_string()
}

/// `Arc::clone`: another handle to the same command capability.
#[verifier::external_body]
pub(crate) fn share_registry<H>(registry: &Arc<CommandRegistryWrapper<H>>) -> (r: Arc<
    CommandRegistryWrapper<H>,
>)
    ensures
        r == *registry,
{
    registry.clone()
}

/// Runs a command of the host through its command capability.
pub fn run_builtin<H>(
    registry: &CommandRegistryWrapper<H>,
    host: &mut H,
    command: &str,
    args: &Vec<String>,
) -> (r: Result<(), anyhow::Error>) {
    registry.0.execute(host, command, args.as_slice())
}

/// `mlua::AnyUserData::borrow_mut_scoped`: lends the host behind `handle` to
/// [`run_builtin`]. The outer result fails where the handle is no longer
/// valid or the host is already lent out.
#[verifier::external_body]
pub(crate) fn lend_handle<H: 'static>(
    handle: &mlua::AnyUserData,
    registry: &CommandRegistryWrapper<H>,
    command: &str,
    args: &Vec<String>,
) -> (r: Result<Result<(), anyhow::Error>, mlua::Error>) {
    handle.borrow_mut_scoped::<H, _>(|host| run_builtin(registry, host, command, args))
}

/// Lends the bound host to a command of the host. The outer result fails
/// where no host is bound.
pub fn lend_host_to_builtin<H: 'static>(
    lua: &mlua::Lua,
    registry: &CommandRegistryWrapper<H>,
    command: &str,
    args: &Vec<String>,
) -> (r: Result<Result<(), anyhow::Error>, mlua::Error>) {
    match stored_handle(lua, host_slot()) {
        Ok(handle) => lend_handle(&handle, registry, command, args),
        Err(e) => Err(e),
    }
}

/// What a script is told where a command of the host failed.
pub fn builtin_failure(command: &str, detail: &str) -> (e: PluginError)
    ensures
        e matches PluginError::CommandExecutionFailed(m) && m@ == "Command '"@ + command@
            + "' failed: "@ + detail@,
{
    let head = crate::text::join3("Command '", command, "' failed: ");
    PluginError::CommandExecutionFailed(join2(head.as_str(), detail))
}

/// What a script is told where the host handed in no command capability.
pub open spec fn no_registry_message() -> Seq<char> {
    "Builtin command registry not available"@
}

/// Runs a command of the host on behalf of the running script. `bound` says
/// whether a dispatch is active; without one the call fails with
/// `ApiAccessError` and the host is not reached. Without a command
/// capability the call fails as well.
pub fn execute_builtin<H: 'static>(
    lua: &mlua::Lua,
    registry: &Option<Arc<CommandRegistryWrapper<H>>>,
    bound: bool,
    command: String,
    args: Option<Vec<String>>,
) -> (r: Result<(), PluginError>)
    ensures
        !bound ==> refused_without_dispatch(r),
        bound && registry is None ==> (r matches Err(PluginError::CommandExecutionFailed(m)) && m@
            == no_registry_message()),
        r matches Err(e) ==> e is ApiAccessError || e is LuaError || e is CommandExecutionFailed,
{
    match require_dispatch(bound) {
        Ok(()) => {},
        Err(e) => {
            return Err(e);
        },
    }
    let args = texts_or_none(args);
    match registry {
        None => Err(
            PluginError::CommandExecutionFailed(owned("Builtin command registry not available")),
        ),
        Some(capability) => match lend_host_to_builtin(lua, capability, command.as_str(), &args) {
            Err(e) => Err(PluginError::LuaError(e)),
            Ok(Ok(())) => Ok(()),
            Ok(Err(e)) => {
                let detail = host_error_text(&e);
                Err(builtin_failure(command.as_str(), detail.as_str()))
            },
        },
    }
}

/// `helix.editor.execute_command(command, args)`.
pub fn execute_command<H: 'static>(
    lua: &mlua::Lua,
    registry: &Option<Arc<CommandRegistryWrapper<H>>>,
    command: String,
    args: Option<Vec<String>>,
) -> (r: Result<(), mlua::Error>) {
    let bound = host_is_bound(lua);
    match execute_builtin(lua, registry, bound, command, args) {
        Ok(()) => Ok(()),
        Err(e) => Err(raise(e)),
    }
}

/// `mlua::Lua::create_function` and `mlua::Table::set`: makes
/// [`execute_command`], on `registry`, callable from scripts as the member
/// `name` of `table`.
#[verifier::external_body]
pub(crate) fn install_execute_command<H: 'static>(
    lua: &mlua::Lua,
    table: &mlua::Table,
    name: &str,
    registry: Option<Arc<CommandRegistryWrapper<H>>>,
) -> (r: Result<(), mlua::Error>) {
    let f = lua.create_function(
        move |lua, (command, args): (String, Option<Vec<String>>)|
            execute_command(lua, &registry, command, args),
    )?;
    table.set(name, f)
}

/// The position of the first configuration for the plugin `name`.
pub open spec fn config_position(config: PluginConfig, name: Seq<char>) -> Option<int> {
    if exists|i: int| 0 <= i < config.plugins@.len() && config.plugins@[i].name@ == name {
        Some(
            choose|i: int|
                0 <= i < config.plugins@.len() && config.plugins@[i].name@ == name && forall|j: int|
                    0 <= j < i ==> config.plugins@[j].name@ != name,
        )
    } else {
        None
    }
}

/// Finds the first configuration for the plugin `name`.
pub fn find_plugin_config(config: &PluginConfig, name: &str) -> (r: Option<usize>)
    ensures
        r matches Some(i) ==> i < config.plugins@.len() && config.plugins@[i as int].name@ == name@
            && forall|j: int| 0 <= j < i ==> config.plugins@[j].name@ != name@,
        r is None ==> forall|j: int|
            0 <= j < config.plugins@.len() ==> config.plugins@[j].name@ != name@,
        r matches Some(i) ==> config_position(*config, name@) == Some(i as int),
        r is None ==> config_position(*config, name@) is None,
{
    let mut i: usize = 0;
    while i < config.plugins.len()
        invariant
            i <= config.plugins@.len(),
            forall|j: int| 0 <= j < i ==> config.plugins@[j].name@ != name@,
        decreases config.plugins@.len() - i,
    {
        if crate::text::same_text(config.plugins[i].name.as_str(), name) {
            proof {
                let p = choose|p: int|
                    0 <= p < config.plugins@.len() && config.plugins@[p].name@ == name@
                        && forall|j: int| 0 <= j < p ==> config.plugins@[j].name@ != name@;
                assert(p == i) by {
                    if p < i {
                        assert(config.plugins@[p].name@ != name@);
                    }
                    if i < p {
                        assert(config.plugins@[i as int].name@ != name@);
                    }
                }
            }
            return Some(i);
        }
        i += 1;
    }
    None
}

/// `helix.get_config()`: the configuration of the plugin whose entry script
/// is running, as a table of its text, number and boolean members. It is
/// `None` where the plugin has no configuration or the configuration is not
/// an object; so it is where no plugin is configured at all.
pub fn get_config(lua: &mlua::Lua, config: &PluginConfig) -> (r: Result<
    Option<mlua::Table>,
    mlua::Error,
>)
    ensures
        config.plugins@.len() == 0 ==> r matches Ok(None),
{
    let plugin = current_plugin(lua);
    plugin_settings(lua, config, plugin.as_str())
}

/// The configuration of the plugin `plugin` as a table of its text, number
/// and boolean members. It is `None` where the plugin has no configuration
/// or the configuration is not an object.
pub fn plugin_settings(lua: &mlua::Lua, config: &PluginConfig, plugin: &str) -> (r: Result<
    Option<mlua::Table>,
    mlua::Error,
>)
    ensures
        config_position(*config, plugin@) is None ==> r matches Ok(None),
{
    let position = match find_plugin_config(config, plugin) {
        Some(i) => i,
        None => {
            return Ok(None);
        },
    };
    let members = match json_members(&config.plugins[position].config) {
        Some(m) => m,
        None => {
            return Ok(None);
        },
    };
    let table = match new_table(lua) {
        Ok(t) => t,
        Err(e) => {
            return Err(e);
        },
    };
    let mut i: usize = 0;
    while i < members.len()
        invariant
            i <= members@.len(),
            config_position(*config, plugin@) is Some,
        decreases members@.len() - i,
    {
        let member = &members[i];
        let stored = match json_scalar(&member.1) {
            JsonScalar::Text(s) => table_set_text(&table, member.0.as_str(), s.as_str()),
            JsonScalar::Number(n) => table_set_number(&table, member.0.as_str(), &n),
            JsonScalar::Flag(b) => table_set_flag(&table, member.0.as_str(), b),
            JsonScalar::Other => Ok(()),
        };
        match stored {
            Ok(()) => {},
            Err(e) => {
                return Err(e);
            },
        }
        i += 1;
    }
    Ok(Some(table))
}

/// `mlua::Lua::create_function` and `mlua::Table::set`: makes [`subscribe`]
/// callable from scripts as the member `name` of `table`.
#[verifier::external_body]
pub(crate) fn install_subscribe(lua: &mlua::Lua, table: &mlua::Table, name: &str) -> (r: Result<
    (),
    mlua::Error,
>) {
    let f = lua.create_function(
        |lua, (event_name, callback): (String, mlua::Function)| subscribe(lua, event_name, callback),
    )?;
    table.set(name, f)
}

/// `mlua::Lua::create_function` and `mlua::Table::set`: makes
/// [`register_command`] callable from scripts as the member `name` of
/// `table`.
#[verifier::external_body]
pub(crate) fn install_register_command(lua: &mlua::Lua, table: &mlua::Table, name: &str) -> (r:
    Result<(), mlua::Error>) {
    let f = lua.create_function(|lua, description: mlua::Table| register_command(lua, description))?;
    table.set(name, f)
}

/// `mlua::Lua::create_function` and `mlua::Table::set`: makes [`get_config`],
/// on `config`, callable from scripts as the member `name` of `table`.
#[verifier::external_body]
pub(crate) fn install_get_config(
    lua: &mlua::Lua,
    table: &mlua::Table,
    name: &str,
    config: PluginConfig,
) -> (r: Result<(), mlua::Error>) {
    let f = lua.create_function(move |lua, ()| get_config(lua, &config))?;
    table.set(name, f)
}

/// `mlua::Lua::create_function` and `mlua::Table::set`: makes [`prompt`]
/// callable from scripts as the member `name` of `table`.
#[verifier::external_body]
pub(crate) fn install_prompt(lua: &mlua::Lua, table: &mlua::Table, name: &str) -> (r: Result<
    (),
    mlua::Error,
>) {
    let f = lua.create_function(
        |lua, (message, default, callback): (String, Option<String>, mlua::Function)|
            prompt(lua, message, default, callback),
    )?;
    table.set(name, f)
}

/// `mlua::Lua::create_function` and `mlua::Table::set`: makes [`confirm`]
/// callable from scripts as the member `name` of `table`.
#[verifier::external_body]
pub(crate) fn install_confirm(lua: &mlua::Lua, table: &mlua::Table, name: &str) -> (r: Result<
    (),
    mlua::Error,
>) {
    let f = lua.create_function(
        |lua, (message, callback): (String, mlua::Function)| confirm(lua, message, callback),
    )?;
    table.set(name, f)
}

/// `mlua::Lua::create_function` and `mlua::Table::set`: makes [`picker`]
/// callable from scripts as the member `name` of `table`.
#[verifier::external_body]
pub(crate) fn install_picker(lua: &mlua::Lua, table: &mlua::Table, name: &str) -> (r: Result<
    (),
    mlua::Error,
>) {
    let f = lua.create_function(|lua, options: mlua::Table| picker(lua, options))?;
    table.set(name, f)
}

} // verus!
