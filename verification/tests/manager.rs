use helix_plugin::lua::EntrySource;
use helix_plugin::manager::DiscoveredPlugin;
use helix_plugin::types::EventData;
use helix_plugin::types::EventType;
use helix_plugin::types::IndividualPluginConfig;
use helix_plugin::types::Plugin;
use helix_plugin::types::PluginConfig;
use helix_plugin::types::PluginEvent;
use helix_plugin::types::PluginMetadata;
use helix_plugin::PluginManager;
use std::path::PathBuf;

struct Editor {
    status: Vec<String>,
}

fn found(name: &str, script: &str) -> DiscoveredPlugin {
    DiscoveredPlugin {
        plugin: Plugin {
            metadata: PluginMetadata { name: name.to_string(), ..Default::default() },
            path: PathBuf::from(name),
            enabled: true,
        },
        entry: EntrySource::Code { code: script.to_string() },
    }
}

fn setting(name: &str, enabled: bool) -> IndividualPluginConfig {
    IndividualPluginConfig { name: name.to_string(), enabled, config: serde_json::Value::Null }
}

fn order(manager: &PluginManager<Editor>) -> Vec<String> {
    manager.engine().lua().globals().get::<Vec<String>>("order").unwrap()
}

#[test]
fn test_plugin_manager_creation() {
    let config = PluginConfig::default();
    let manager = PluginManager::<Editor>::new(config);
    assert!(manager.is_ok());
}

#[test]
fn test_disabled_plugin_system() {
    let config = PluginConfig { enabled: false, ..Default::default() };

    let manager = PluginManager::<Editor>::new(config).unwrap();
    assert!(!manager.is_enabled());
}

#[test]
fn plugins_are_enabled_unless_configured_otherwise() {
    let config = PluginConfig {
        enabled: true,
        plugin_dirs: vec![],
        plugins: vec![setting("off", false), setting("on", true), setting("off", true)],
    };
    let manager = PluginManager::<Editor>::new(config).unwrap();
    assert!(manager.is_enabled());
    assert!(!manager.is_plugin_enabled("off"));
    assert!(manager.is_plugin_enabled("on"));
    assert!(manager.is_plugin_enabled("never mentioned"));
}

#[test]
fn plugin_config_is_found_by_name() {
    let mut second = setting("b", true);
    second.config = serde_json::Value::String("payload".to_string());
    let config =
        PluginConfig { enabled: true, plugin_dirs: vec![], plugins: vec![setting("a", true), second] };
    let manager = PluginManager::<Editor>::new(config).unwrap();
    assert_eq!(
        manager.get_plugin_config("b"),
        Some(&serde_json::Value::String("payload".to_string()))
    );
    assert_eq!(manager.get_plugin_config("a"), Some(&serde_json::Value::Null));
    assert_eq!(manager.get_plugin_config("c"), None);
}

#[test]
fn search_dirs_prefer_the_configuration() {
    let defaults = vec![PathBuf::from("/usr/share/helix/plugins")];
    let manager = PluginManager::<Editor>::new(PluginConfig::default()).unwrap();
    assert_eq!(manager.search_dirs(defaults.clone()), defaults);

    let config = PluginConfig {
        enabled: true,
        plugin_dirs: vec![PathBuf::from("/a"), PathBuf::from("/b")],
        plugins: vec![],
    };
    let manager = PluginManager::<Editor>::new(config).unwrap();
    assert_eq!(manager.search_dirs(defaults), vec![PathBuf::from("/a"), PathBuf::from("/b")]);
}

#[test]
fn initialize_loads_enabled_plugins_in_order_and_fires_init() {
    let config =
        PluginConfig { enabled: true, plugin_dirs: vec![], plugins: vec![setting("skipped", false)] };
    let mut manager = PluginManager::<Editor>::new(config).unwrap();
    manager.engine().lua().load("order = {}").exec().unwrap();
    let mut editor = Editor { status: vec![] };
    let discovered = vec![
        found("first", r#"table.insert(order, "load first") helix.on("init", function(e) table.insert(order, "init first " .. e.type) end)"#),
        found("skipped", r#"table.insert(order, "load skipped")"#),
        found("broken", r#"table.insert(order, "load broken") error("bad plugin")"#),
        DiscoveredPlugin {
            plugin: Plugin {
                metadata: PluginMetadata { name: "empty".to_string(), ..Default::default() },
                path: PathBuf::from("empty"),
                enabled: true,
            },
            entry: EntrySource::Missing { location: "empty/init.lua".to_string() },
        },
        found("last", r#"table.insert(order, "load last") helix.on("init", function() table.insert(order, "init last") end)"#),
    ];
    manager.initialize(&mut editor, discovered).unwrap();
    assert_eq!(
        order(&manager),
        vec!["load first", "load broken", "load last", "init first init", "init last"]
    );
    assert_eq!(manager.engine().plugins().list(), vec!["first", "last"]);
    assert!(editor.status.is_empty());
}

#[test]
fn initialize_reports_a_failing_init_handler() {
    let mut manager = PluginManager::<Editor>::new(PluginConfig::default()).unwrap();
    let mut editor = Editor { status: vec![] };
    let discovered = vec![found("p", r#"helix.on("init", function() error("no start") end)"#)];
    match manager.initialize(&mut editor, discovered) {
        Err(helix_plugin::PluginError::EventHandlerError { plugin, error }) => {
            assert_eq!(plugin, "p");
            assert!(error.contains("no start"));
        }
        other => panic!("unexpected result: {:?}", other),
    }
    assert!(manager.engine().plugins().contains_key("p"));
}

#[test]
fn manager_hands_dispatches_to_the_engine() {
    let mut manager = PluginManager::<Editor>::new(PluginConfig::default()).unwrap();
    manager.engine().lua().load("order = {}").exec().unwrap();
    let mut editor = Editor { status: vec![] };
    let script = r#"
        helix.on("ready", function() table.insert(order, "ready") end)
        helix.register_command({ name = "go", doc = "Goes", handler = function(where) table.insert(order, "go " .. where) end })
    "#;
    manager.initialize(&mut editor, vec![found("p", script)]).unwrap();
    manager
        .fire_event(&mut editor, PluginEvent { event_type: EventType::OnReady, data: EventData::Empty })
        .unwrap();
    manager.execute_command(&mut editor, "go", vec!["home".to_string()]).unwrap();
    assert!(manager.execute_command(&mut editor, "stay", vec![]).is_err());
    manager
        .handle_ui_callback(&mut editor, "p".to_string(), 9, serde_json::Value::Null)
        .unwrap();
    assert_eq!(order(&manager), vec!["ready", "go home"]);
    let commands = manager.get_commands();
    assert_eq!(commands.len(), 1);
    assert_eq!(commands[0].name, "go");
    assert_eq!(commands[0].doc, "Goes");
}

#[test]
fn initialize_without_plugins_changes_nothing() {
    let mut manager = PluginManager::<Editor>::new(PluginConfig::default()).unwrap();
    let mut editor = Editor { status: vec!["kept".to_string()] };
    manager.initialize(&mut editor, vec![]).unwrap();
    assert!(manager.engine().plugins().is_empty());
    assert_eq!(manager.get_commands().len(), 0);
    assert_eq!(editor.status, vec!["kept"]);
}

#[test]
fn failed_loads_are_returned_in_order() {
    let config =
        PluginConfig { enabled: true, plugin_dirs: vec![], plugins: vec![setting("skipped", false)] };
    let mut manager = PluginManager::<Editor>::new(config).unwrap();
    let missing = |name: &str| DiscoveredPlugin {
        plugin: Plugin {
            metadata: PluginMetadata { name: name.to_string(), ..Default::default() },
            path: PathBuf::from(name),
            enabled: true,
        },
        entry: EntrySource::Missing { location: format!("{}/init.lua", name) },
    };
    let discovered = vec![
        found("fine", "x = 1"),
        found("broken", r#"error("bad plugin")"#),
        missing("skipped"),
        missing("empty"),
        found("last", "y = 2"),
    ];
    let failures = manager.load_plugins(discovered);
    assert_eq!(failures.len(), 2);
    assert_eq!(failures[0].plugin, "broken");
    assert!(matches!(failures[0].error, helix_plugin::PluginError::LuaError(_)));
    assert_eq!(failures[1].plugin, "empty");
    match &failures[1].error {
        helix_plugin::PluginError::InvalidPluginStructure(m) => {
            assert_eq!(m, "Entry file not found: empty/init.lua")
        }
        other => panic!("unexpected error: {:?}", other),
    }
    assert_eq!(manager.engine().plugins().list(), vec!["fine", "last"]);
    let mut editor = Editor { status: vec![] };
    assert!(manager.start(&mut editor).is_ok());
}
