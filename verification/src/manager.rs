//! The facade that the host talks to: it filters the discovered plugins by
//! the configuration, loads them in order, fires the startup event and hands
//! every dispatch on to the engine.

use vstd::prelude::*;
use std::path::PathBuf;
use crate::lua::api::PendingRequest;
use crate::lua::api::config_position;
use crate::lua::api::find_plugin_config;
use crate::error::PluginError;
use crate::lua::EngineState;
use crate::lua::EntrySource;
use crate::lua::LuaEngine;
use crate::lua::is_command_failure;
use crate::lua::is_failure_among;
use crate::lua::dispatched;
use crate::lua::extends;
use crate::lua::lemma_extends_on;
use crate::lua::lemma_run_extends;
use crate::lua::lemma_turns_extend;
use crate::lua::loaded_from;
use crate::lua::owners_of;
use crate::lua::turns;
use crate::lua::reachable;
use crate::lua::is_unknown_command;
use crate::lua::run;
use crate::types::CommandMetadata;
use crate::types::CommandRegistryWrapper;
use crate::types::EventData;
use crate::types::EventType;
use crate::types::Plugin;
use crate::types::PluginConfig;
use crate::types::PluginEvent;
use crate::types::UiHandlerWrapper;
use crate::vecs::reversed;

verus! {

/// A plugin that discovery found, with what the host read of its entry
/// script.
pub struct DiscoveredPlugin {
    pub plugin: Plugin,
    pub entry: EntrySource,
}

/// Whether the configuration lets the plugin `name` be loaded: the first
/// entry for the name decides, and a plugin without an entry is enabled.
pub open spec fn plugin_enabled(config: PluginConfig, name: Seq<char>) -> bool {
    match config_position(config, name) {
        Some(i) => config.plugins@[i].enabled,
        None => true,
    }
}

/// Whether a plugin named `name` is among the first `count` of `discovered`
/// with its entry script read.
pub open spec fn offered(discovered: Seq<DiscoveredPlugin>, count: int, name: Seq<char>) -> bool {
    exists|i: int|
        0 <= i < count && i < discovered.len() && (#[trigger] discovered[i]).plugin.metadata.name@
            == name && discovered[i].entry is Code
}

/// A plugin that was discovered, enabled and not loaded, and why.
pub struct LoadFailure {
    /// The name of the plugin.
    pub plugin: String,
    /// Why it was not loaded.
    pub error: PluginError,
}

/// Whether `end` is what becomes of `before` when the plugin `found` has had
/// its turn, and `failed` is why it was not loaded, if it was not. A plugin
/// that the configuration disables is left out and is no failure. A plugin
/// whose entry script is missing or unreadable is a failure and leaves the
/// engine as it is. Any other plugin is loaded: what its script asks for is
/// applied for the plugin, and the plugin is resident afterwards if and only
/// if its script ran to the end; else the failure is that of the script.
pub open spec fn took_turn(
    config: PluginConfig,
    before: EngineState,
    found: DiscoveredPlugin,
    end: EngineState,
    failed: Option<PluginError>,
) -> bool {
    if !plugin_enabled(config, found.plugin.metadata.name@) {
        end == before && failed is None
    } else {
        match found.entry {
            EntrySource::Code { .. } => {
                ||| loaded_from(before, end, found.plugin, true) && failed is None
                ||| loaded_from(before, end, found.plugin, false) && failed is Some
                    && failed->0 is LuaError
            },
            EntrySource::Missing { location } => end == before && (failed matches Some(
                PluginError::InvalidPluginStructure(m),
            ) && m@ == "Entry file not found: "@ + location@),
            EntrySource::Unreadable { error } => end == before && failed == Some(
                PluginError::IoError(error),
            ),
        }
    }
}

/// The failures that came before the turn of the last plugin.
pub open spec fn earlier(failures: Seq<LoadFailure>, failed: Option<PluginError>) -> Seq<
    LoadFailure,
> {
    if failed is Some {
        failures.drop_last()
    } else {
        failures
    }
}

/// Whether `end` is what becomes of `start` when the plugins `discovered`
/// have had their turns one after the other, in order, and `failures` are
/// the plugins that were not loaded, in order, each with its error.
pub open spec fn loaded_in_order(
    config: PluginConfig,
    start: EngineState,
    discovered: Seq<DiscoveredPlugin>,
    end: EngineState,
    failures: Seq<LoadFailure>,
) -> bool
    decreases discovered.len(),
{
    if discovered.len() == 0 {
        end == start && failures.len() == 0
    } else {
        exists|mid: EngineState, failed: Option<PluginError>|
            loaded_in_order(
                config,
                start,
                discovered.drop_last(),
                mid,
                earlier(failures, failed),
            ) && #[trigger] took_turn(config, mid, discovered.last(), end, failed) && (failed
                is Some ==> failures.len() > 0 && failures.last().error == failed->0
                && failures.last().plugin == discovered.last().plugin.metadata.name)
    }
}

/// The turn of one more plugin goes behind the turns of those before it.
pub proof fn lemma_next_plugin(
    config: PluginConfig,
    start: EngineState,
    discovered: Seq<DiscoveredPlugin>,
    found: DiscoveredPlugin,
    mid: EngineState,
    end: EngineState,
    failures: Seq<LoadFailure>,
    failed: Option<PluginError>,
)
    requires
        loaded_in_order(config, start, discovered, mid, failures),
        took_turn(config, mid, found, end, failed),
    ensures
        loaded_in_order(
            config,
            start,
            discovered.push(found),
            end,
            match failed {
                Some(error) => failures.push(
                    LoadFailure { plugin: found.plugin.metadata.name, error },
                ),
                None => failures,
            },
        ),
{
    let longer = discovered.push(found);
    let now = match failed {
        Some(error) => failures.push(LoadFailure { plugin: found.plugin.metadata.name, error }),
        None => failures,
    };
    assert(longer.drop_last() =~= discovered);
    assert(longer.last() == found);
    assert(earlier(now, failed) =~= failures);
    assert(loaded_in_order(config, start, longer.drop_last(), mid, earlier(now, failed))
        && took_turn(config, mid, longer.last(), end, failed));
}

/// Whether firing `init` on the engine in state `loaded` gave `r` and left
/// the engine in state `end`: the handlers of `init` were reached in order
/// and what each asked for was applied for its plugin, a failure is that of
/// one of them, and without such handlers the event succeeds and changes
/// nothing.
pub open spec fn started(loaded: EngineState, end: EngineState, r: Result<(), PluginError>) -> bool {
    &&& dispatched(loaded, end, loaded.handlers_for(EventType::OnInit))
    &&& (r matches Err(e) ==> e is LuaError || is_failure_among(
        e,
        loaded.handlers_for(EventType::OnInit),
    ))
    &&& (loaded.handlers_for(EventType::OnInit).len() == 0 ==> r is Ok && end == loaded)
}

/// The main plugin manager
#[verifier::reject_recursive_types(H)]
pub struct PluginManager<H> {
    /// The script engine
    engine: LuaEngine<H>,
    /// Plugin configuration
    config: PluginConfig,
}

impl<H: 'static> PluginManager<H> {
    /// What the engine holds.
    pub closed spec fn view(&self) -> EngineState {
        self.engine@
    }

    /// The configuration that the manager was made with.
    pub closed spec fn config(&self) -> PluginConfig {
        self.config
    }

    /// The command capability that the host has handed in.
    pub closed spec fn builtin_commands(&self) -> Option<CommandRegistryWrapper<H>> {
        self.engine.builtin_commands()
    }

    /// The presentation capability that the host has handed in.
    pub closed spec fn ui_handler(&self) -> Option<UiHandlerWrapper<H>> {
        self.engine.ui_handler()
    }

    /// Whether the host has handed in its command capability.
    pub open spec fn has_builtin_commands(&self) -> bool {
        self.builtin_commands() is Some
    }

    /// Create a new plugin manager: an engine with its API published.
    pub fn new(config: PluginConfig) -> (r: Result<Self, PluginError>)
        ensures
            r matches Ok(m) ==> m.config() == config && m@ == EngineState::fresh()
                && m.builtin_commands() is None && m.ui_handler() is None,
            r matches Err(e) ==> e is InitializationFailed || e is LuaError,
    {
        let engine = match LuaEngine::new() {
            Ok(e) => e,
            Err(e) => {
                return Err(e);
            },
        };
        match engine.register_api(config.clone()) {
            Ok(()) => {},
            Err(e) => {
                return Err(e);
            },
        }
        Ok(PluginManager { engine, config })
    }

    /// Publishes the API again, with the capabilities that the host has
    /// handed in by now. It is needed after the command capability is handed
    /// in, and after the engine is reset.
    pub fn register_api(&self) -> (r: Result<(), PluginError>)
        ensures
            r matches Err(e) ==> e is LuaError,
    {
        self.engine.register_api(self.config.clone())
    }

    /// Returns true if the plugin system is enabled
    pub fn is_enabled(&self) -> (r: bool)
        ensures
            r == self.config().enabled,
    {
        self.config.enabled
    }

    /// The directories to search for plugins: those of the configuration,
    /// else `defaults`.
    pub fn search_dirs(&self, defaults: Vec<PathBuf>) -> (r: Vec<PathBuf>)
        ensures
            self.config().plugin_dirs@.len() == 0 ==> r@ == defaults@,
            self.config().plugin_dirs@.len() > 0 ==> r@ == self.config().plugin_dirs@,
    {
        if self.config.plugin_dirs.len() == 0 {
            defaults
        } else {
            let mut dirs: Vec<PathBuf> = Vec::new();
            let mut i: usize = 0;
            while i < self.config.plugin_dirs.len()
                invariant
                    i <= self.config.plugin_dirs@.len(),
                    dirs@ == self.config.plugin_dirs@.take(i as int),
                decreases self.config.plugin_dirs@.len() - i,
            {
                dirs.push(copy_path(&self.config.plugin_dirs[i]));
                assert(self.config.plugin_dirs@.take(i + 1) =~= self.config.plugin_dirs@.take(
                    i as int,
                ).push(self.config.plugin_dirs@[i as int]));
                i += 1;
            }
            assert(self.config.plugin_dirs@.take(i as int) =~= self.config.plugin_dirs@);
            dirs
        }
    }

    /// Check if a plugin is enabled in the configuration
    pub fn is_plugin_enabled(&self, name: &str) -> (r: bool)
        ensures
            r == plugin_enabled(self.config(), name@),
    {
        match find_plugin_config(&self.config, name) {
            Some(i) => self.config.plugins[i].enabled,
            None => true,
        }
    }

    /// Get plugin configuration for a specific plugin
    pub fn get_plugin_config(&self, name: &str) -> (r: Option<&serde_json::Value>)
        ensures
            config_position(self.config(), name@) matches Some(i) ==> r == Some(
                &self.config().plugins@[i].config,
            ),
            config_position(self.config(), name@) is None ==> r is None,
    {
        match find_plugin_config(&self.config, name) {
            Some(i) => Some(&self.config.plugins[i].config),
            None => None,
        }
    }

    /// Hands in the host's command capability.
    pub fn set_builtin_command_registry(&mut self, registry: CommandRegistryWrapper<H>)
        ensures
            final(self)@ == old(self)@,
            final(self).config() == old(self).config(),
            final(self).builtin_commands() == Some(registry),
            final(self).ui_handler() == old(self).ui_handler(),
    {
        self.engine.set_builtin_command_registry(registry);
    }

    /// Hands in the host's capability to present interactions.
    pub fn set_ui_handler(&mut self, handler: UiHandlerWrapper<H>)
        ensures
            final(self)@ == (EngineState { interactive: true, ..old(self)@ }),
            final(self).config() == old(self).config(),
            final(self).ui_handler() == Some(handler),
            final(self).builtin_commands() == old(self).builtin_commands(),
    {
        self.engine.set_ui_handler(handler);
    }

    /// Loads the discovered plugins in the order of discovery. A plugin that
    /// the configuration disables is left out. A plugin that fails to load
    /// is skipped and does not keep the others from loading; the failures
    /// are returned, in order, so that the host can report them.
    pub fn load_plugins(&mut self, discovered: Vec<DiscoveredPlugin>) -> (failures: Vec<
        LoadFailure,
    >)
        ensures
            final(self).config() == old(self).config(),
            final(self).builtin_commands() == old(self).builtin_commands(),
            final(self).ui_handler() == old(self).ui_handler(),
            loaded_in_order(old(self).config(), old(self)@, discovered@, final(self)@, failures@),
            forall|name: Seq<char>| #[trigger]
                final(self)@.plugins.contains_key(name) ==> old(self)@.plugins.contains_key(name)
                    || (plugin_enabled(old(self).config(), name) && offered(
                    discovered@,
                    discovered@.len() as int,
                    name,
                )),
            extends(
                (EngineState { plugins: final(self)@.plugins, ..old(self)@ }),
                final(self)@,
            ),
    {
        let ghost all = discovered@;
        let ghost start = self@;
        let _issued = self.engine.next_callback_id();
        let mut stack = reversed(discovered);
        let mut failures: Vec<LoadFailure> = Vec::new();
        let ghost mut done: int = 0;
        assert(all.take(0) =~= Seq::<DiscoveredPlugin>::empty());
        while stack.len() > 0
            invariant
                self.config() == old(self).config(),
                self.builtin_commands() == old(self).builtin_commands(),
                self.ui_handler() == old(self).ui_handler(),
                start.wf(),
                extends((EngineState { plugins: self@.plugins, ..start }), self@),
                0 <= done <= all.len(),
                stack@.len() == all.len() - done,
                forall|j: int| 0 <= j < stack@.len() ==> #[trigger] stack@[j] == all[all.len() - 1 - j],
                loaded_in_order(self.config(), start, all.take(done), self@, failures@),
                forall|name: Seq<char>| #[trigger]
                    self@.plugins.contains_key(name) ==> start.plugins.contains_key(name) || (
                    plugin_enabled(self.config(), name) && offered(all, done, name)),
            decreases stack@.len(),
        {
            match stack.pop() {
                None => {},
                Some(found) => {
                    assert(found == all[done]);
                    let ghost before = self@;
                    let ghost earlier_failures = failures@;
                    let ghost turn = found;
                    let ghost mut failed: Option<PluginError> = None;
                    if self.is_plugin_enabled(found.plugin.metadata.name.as_str()) {
                        let name = found.plugin.metadata.name.clone();
                        match self.engine.load_plugin(found.plugin, found.entry) {
                            Ok(()) => {},
                            Err(error) => {
                                proof {
                                    failed = Some(error);
                                }
                                failures.push(LoadFailure { plugin: name, error });
                            },
                        }
                        proof {
                            let requests = choose|requests: Seq<PendingRequest>|
                                self@ == if failed is None {
                                    (#[trigger] run(
                                        before,
                                        requests,
                                        turn.plugin.metadata.name,
                                        false,
                                    )).with_plugin(turn.plugin)
                                } else {
                                    run(before, requests, turn.plugin.metadata.name, false)
                                };
                            lemma_run_extends(before, requests, turn.plugin.metadata.name, false);
                            let loaded = run(before, requests, turn.plugin.metadata.name, false);
                            lemma_extends_on(
                                (EngineState { plugins: before.plugins, ..start }),
                                before,
                                loaded,
                            );
                            let base = EngineState { plugins: before.plugins, ..start };
                            let now = EngineState { plugins: self@.plugins, ..start };
                            assert(extends(base, loaded));
                            assert(self@.handlers == loaded.handlers);
                            assert(self@.commands == loaded.commands);
                            assert(self@.ui_callbacks == loaded.ui_callbacks);
                            assert(self@.next_id == loaded.next_id);
                            assert(self@.interactive == loaded.interactive);
                            assert(now.handlers.is_prefix_of(self@.handlers));
                            assert(now.commands.dom().subset_of(self@.commands.dom()));
                            assert forall|k: (Seq<char>, u64)| k.1 < now.next_id implies (
                            #[trigger] self@.ui_callbacks.contains_key(k)
                                <==> now.ui_callbacks.contains_key(k)) by {
                                assert(loaded.ui_callbacks.contains_key(k)
                                    <==> base.ui_callbacks.contains_key(k));
                            }
                            assert forall|k: (Seq<char>, u64)| #[trigger]
                                now.ui_callbacks.contains_key(k) implies self@.ui_callbacks[k]
                                == now.ui_callbacks[k] by {
                                assert(base.ui_callbacks.contains_key(k));
                            }
                            assert(extends(now, self@));
                        }
                    }
                    proof {
                        assert(took_turn(self.config(), before, turn, self@, failed));
                        lemma_next_plugin(
                            self.config(),
                            start,
                            all.take(done),
                            turn,
                            before,
                            self@,
                            earlier_failures,
                            failed,
                        );
                        assert(all.take(done + 1) =~= all.take(done).push(turn));
                        assert forall|n: Seq<char>| #[trigger]
                            self@.plugins.contains_key(n) implies start.plugins.contains_key(n) || (
                        plugin_enabled(self.config(), n) && offered(all, done + 1, n)) by {
                            if before.plugins.contains_key(n) {
                                if !start.plugins.contains_key(n) {
                                    let i = choose|i: int|
                                        0 <= i < done && i < all.len() && (
                                        #[trigger] all[i]).plugin.metadata.name@ == n
                                            && all[i].entry is Code;
                                    assert(all[i].plugin.metadata.name@ == n);
                                }
                            } else {
                                assert(all[done].plugin.metadata.name@ == n);
                            }
                        }
                        done = done + 1;
                    }
                },
            }
        }
        assert(all.take(done) =~= all);
        failures
    }

    /// Loads the discovered plugins in the order of discovery, then fires
    /// the `init` event. A plugin that the configuration disables is left
    /// out. A plugin that fails to load is skipped and does not keep the
    /// others from loading. The result is that of the `init` event.
    pub fn initialize(&mut self, host: &mut H, discovered: Vec<DiscoveredPlugin>) -> (r: Result<
        (),
        PluginError,
    >)
        ensures
            final(self).config() == old(self).config(),
            final(self).builtin_commands() == old(self).builtin_commands(),
            final(self).ui_handler() == old(self).ui_handler(),
            forall|name: Seq<char>| #[trigger]
                final(self)@.plugins.contains_key(name) ==> old(self)@.plugins.contains_key(name)
                    || (plugin_enabled(old(self).config(), name) && offered(
                    discovered@,
                    discovered@.len() as int,
                    name,
                )),
            old(self)@.handlers.is_prefix_of(final(self)@.handlers),
            old(self)@.commands.dom().subset_of(final(self)@.commands.dom()),
            forall|k: (Seq<char>, u64)| #[trigger]
                old(self)@.ui_callbacks.contains_key(k) ==> final(self)@.ui_callbacks.contains_key(k)
                    && final(self)@.ui_callbacks[k] == old(self)@.ui_callbacks[k],
            r matches Err(e) ==> e is LuaError || e is EventHandlerError,
            exists|loaded: EngineState, failures: Seq<LoadFailure>| #[trigger]
                loaded_in_order(old(self).config(), old(self)@, discovered@, loaded, failures)
                    && started(loaded, final(self)@, r) && (loaded.handlers_for(
                    EventType::OnInit,
                ).len() == 0 ==> *final(host) == *old(host)),
    {
        let ghost start = self@;
        let _issued = self.engine.next_callback_id();
        let failures = self.load_plugins(discovered);
        self.start(host)
    }

    /// Fires the `init` event to the handlers that the loaded plugins have
    /// registered for it.
    pub fn start(&mut self, host: &mut H) -> (r: Result<(), PluginError>)
        ensures
            final(self).config() == old(self).config(),
            final(self).builtin_commands() == old(self).builtin_commands(),
            final(self).ui_handler() == old(self).ui_handler(),
            started(old(self)@, final(self)@, r),
            old(self)@.handlers_for(EventType::OnInit).len() == 0 ==> *final(host) == *old(host),
            extends(old(self)@, final(self)@),
    {
        let _issued = self.engine.next_callback_id();
        let event = PluginEvent { event_type: EventType::OnInit, data: EventData::Empty };
        let ghost loaded_state = self@;
        let r = self.engine.call_event_handlers(host, &event);
        proof {
            let handlers = loaded_state.handlers_for(EventType::OnInit);
            let reached = choose|reached: int|
                0 <= reached <= handlers.len() && #[trigger] turns(
                    loaded_state,
                    self@,
                    owners_of(handlers, reached),
                );
            lemma_turns_extend(loaded_state, self@, owners_of(handlers, reached));
        }
        r
    }

    /// Fire an event to all registered handlers
    pub fn fire_event(&mut self, host: &mut H, event: PluginEvent) -> (r: Result<(), PluginError>)
        ensures
            final(self).config() == old(self).config(),
            r matches Err(e) ==> e is LuaError || is_failure_among(
                e,
                old(self)@.handlers_for(event.event_type),
            ),
            old(self)@.handlers_for(event.event_type).len() == 0 ==> r is Ok && *final(host) == *old(
                host,
            ) && final(self)@ == old(self)@,
            dispatched(old(self)@, final(self)@, old(self)@.handlers_for(event.event_type)),
    {
        self.engine.call_event_handlers(host, &event)
    }

    /// The script engine (for advanced operations)
    pub fn engine(&self) -> (r: &LuaEngine<H>)
        ensures
            r@ == self@,
    {
        &self.engine
    }

    /// Get registered commands
    pub fn get_commands(&self) -> (r: Vec<CommandMetadata>)
        ensures
            r@.len() == self@.commands.len(),
            forall|i: int|
                0 <= i < r@.len() ==> self@.commands.contains_key((#[trigger] r@[i]).name@)
                    && self@.commands[r@[i].name@].metadata == r@[i],
            forall|i: int, j: int|
                0 <= i < j < r@.len() ==> (#[trigger] r@[i]).name@ != (#[trigger] r@[j]).name@,
    {
        self.engine.get_commands()
    }

    /// Execute a plugin command
    pub fn execute_command(&mut self, host: &mut H, name: &str, args: Vec<String>) -> (r: Result<
        (),
        PluginError,
    >)
        ensures
            final(self).config() == old(self).config(),
            !old(self)@.commands.contains_key(name@) ==> is_unknown_command(r, name@) && final(self)@ == old(self)@ && *final(host) == *old(host),
            old(self)@.commands.contains_key(name@) ==> (r matches Err(e) ==> is_command_failure(e))
                && reachable(
                old(self)@,
                final(self)@,
                old(self)@.commands[name@].plugin,
                true,
            ),
    {
        self.engine.execute_command(host, name, args)
    }

    /// Handle a UI/Picker callback from the editor
    pub fn handle_ui_callback(
        &mut self,
        host: &mut H,
        plugin_name: String,
        callback_id: u64,
        value: serde_json::Value,
    ) -> (r: Result<(), PluginError>)
        ensures
            final(self).config() == old(self).config(),
            !old(self)@.ui_callbacks.contains_key((plugin_name@, callback_id)) ==> r is Ok && final(self)@ == old(self)@ && *final(host) == *old(host),
            r matches Err(e) ==> e is LuaError,
            reachable(
                old(self)@.without_callback(plugin_name@, callback_id),
                final(self)@,
                plugin_name,
                true,
            ),
            !final(self)@.ui_callbacks.contains_key((plugin_name@, callback_id)),
    {
        self.engine.handle_ui_callback(host, plugin_name, callback_id, value)
    }
}

/// `<PathBuf as Clone>::clone`: a copy of a path. The copy is the same path.
#[verifier::external_body]
pub(crate) fn copy_path(path: &PathBuf) -> (r: PathBuf)
    ensures
        r == *path,
{
    path.clone()
}

} // verus!
