use helix_plugin::assoc::AssocList;
use helix_plugin::registry::CommandRegistry;
use helix_plugin::registry::EventRegistry;
use helix_plugin::registry::PluginTable;
use helix_plugin::registry::UiCallbackCounter;
use helix_plugin::registry::UiCallbackRegistry;
use helix_plugin::types::CommandMetadata;
use helix_plugin::types::EventType;
use helix_plugin::types::Plugin;
use helix_plugin::types::PluginMetadata;
use std::path::PathBuf;

/// A handle to a function that returns `value`.
fn handle(lua: &mlua::Lua, value: i64) -> mlua::RegistryKey {
    let f = lua.create_function(move |_, ()| Ok(value)).unwrap();
    lua.create_registry_value(f).unwrap()
}

fn call(lua: &mlua::Lua, key: &mlua::RegistryKey) -> i64 {
    lua.registry_value::<mlua::Function>(key).unwrap().call::<i64>(()).unwrap()
}

fn metadata(name: &str, doc: &str) -> CommandMetadata {
    CommandMetadata { name: name.to_string(), doc: doc.to_string(), args: None }
}

#[test]
fn assoc_list_keeps_insertion_order() {
    let mut list: AssocList<String, u32> = AssocList::new();
    assert_eq!(list.len(), 0);
    list.insert("b".to_string(), 1);
    list.insert("a".to_string(), 2);
    list.insert("b".to_string(), 3);
    assert_eq!(list.len(), 2);
    assert_eq!(list.get(&"b".to_string()), Some(&3));
    assert_eq!(list.get(&"a".to_string()), Some(&2));
    assert_eq!(list.get(&"c".to_string()), None);
    assert_eq!(list.find(&"b".to_string()), Some(0));
    assert_eq!(list.find(&"a".to_string()), Some(1));
    assert_eq!(list.slot(0).key, "b");
    assert_eq!(list.slot(1).value, 2);

    assert_eq!(list.remove(&"b".to_string()), Some(3));
    assert_eq!(list.remove(&"b".to_string()), None);
    assert_eq!(list.len(), 1);
    assert_eq!(list.find(&"a".to_string()), Some(0));
    list.clear();
    assert_eq!(list.len(), 0);
    assert_eq!(list.get(&"a".to_string()), None);
}

#[test]
fn subscriptions_are_listed_in_order() {
    let lua = mlua::Lua::new();
    let mut registry = EventRegistry::new();
    registry.subscribe(EventType::OnReady, "zeta".to_string(), handle(&lua, 1));
    registry.subscribe(EventType::OnInit, "alpha".to_string(), handle(&lua, 2));
    registry.subscribe(EventType::OnReady, "alpha".to_string(), handle(&lua, 3));
    registry.subscribe(EventType::OnReady, "zeta".to_string(), handle(&lua, 4));
    assert_eq!(registry.len(), 4);
    assert_eq!(registry.positions(EventType::OnReady), vec![0, 2, 3]);
    assert_eq!(registry.positions(EventType::OnInit), vec![1]);
    assert_eq!(registry.positions(EventType::OnKeyPress), Vec::<usize>::new());
    let called: Vec<i64> = registry
        .positions(EventType::OnReady)
        .into_iter()
        .map(|i| call(&lua, &registry.entry(i).callback))
        .collect();
    assert_eq!(called, vec![1, 3, 4]);
    assert_eq!(registry.entry(2).plugin, "alpha");
    assert_eq!(registry.entry(2).event_type, EventType::OnReady);
    registry.clear();
    assert_eq!(registry.len(), 0);
    assert_eq!(registry.positions(EventType::OnReady), Vec::<usize>::new());
}

#[test]
fn last_command_registration_wins() {
    let lua = mlua::Lua::new();
    let mut registry = CommandRegistry::new();
    registry.register(metadata("x", "first"), "a".to_string(), handle(&lua, 1));
    registry.register(metadata("y", "other"), "a".to_string(), handle(&lua, 2));
    registry.register(metadata("x", "second"), "b".to_string(), handle(&lua, 3));
    let entry = registry.lookup("x").unwrap();
    assert_eq!(entry.metadata.doc, "second");
    assert_eq!(entry.plugin, "b");
    assert_eq!(call(&lua, &entry.callback), 3);
    assert_eq!(call(&lua, &registry.lookup("y").unwrap().callback), 2);
    assert!(registry.lookup("z").is_none());
    let listed: Vec<(String, String)> =
        registry.list().into_iter().map(|m| (m.name, m.doc)).collect();
    assert_eq!(
        listed,
        vec![("x".to_string(), "second".to_string()), ("y".to_string(), "other".to_string())]
    );
    registry.clear();
    assert!(registry.lookup("x").is_none());
    assert_eq!(registry.list().len(), 0);
}

#[test]
fn callback_ids_count_up_from_one() {
    let mut counter = UiCallbackCounter::new();
    assert_eq!(counter.peek(), 1);
    assert_eq!(counter.allocate(), Some(1));
    assert_eq!(counter.allocate(), Some(2));
    assert_eq!(counter.peek(), 3);
}

#[test]
fn ui_callbacks_are_taken_once() {
    let lua = mlua::Lua::new();
    let mut registry = UiCallbackRegistry::new();
    assert_eq!(registry.peek(), 1);
    assert_eq!(registry.register("a".to_string(), handle(&lua, 10)), Some(1));
    assert_eq!(registry.register("b".to_string(), handle(&lua, 20)), Some(2));
    assert_eq!(registry.register("a".to_string(), handle(&lua, 30)), Some(3));
    assert_eq!(registry.len(), 3);
    assert!(registry.is_pending("a", 1));
    assert!(registry.is_pending("b", 2));
    assert!(!registry.is_pending("b", 1));
    assert!(!registry.is_pending("a", 4));

    assert!(registry.take("b", 1).is_none());
    assert!(registry.take("c", 2).is_none());
    let taken = registry.take("b", 2).unwrap();
    assert_eq!(call(&lua, &taken), 20);
    assert!(registry.take("b", 2).is_none());
    assert_eq!(registry.len(), 2);

    assert_eq!(registry.register("b".to_string(), handle(&lua, 40)), Some(4));
    registry.clear();
    assert_eq!(registry.len(), 0);
    assert!(!registry.is_pending("a", 1));
    assert_eq!(registry.peek(), 5);
    assert_eq!(registry.register("a".to_string(), handle(&lua, 50)), Some(5));
}

#[test]
fn plugin_table_is_keyed_by_name() {
    let plugin = |name: &str, version: &str| Plugin {
        metadata: PluginMetadata {
            name: name.to_string(),
            version: version.to_string(),
            ..Default::default()
        },
        path: PathBuf::from(name),
        enabled: true,
    };
    let mut table = PluginTable::new();
    assert!(table.is_empty());
    table.insert(plugin("a", "1"));
    table.insert(plugin("b", "1"));
    table.insert(plugin("a", "2"));
    assert_eq!(table.len(), 2);
    assert_eq!(table.get("a").unwrap().metadata.version, "2");
    assert!(table.contains_key("b"));
    assert!(!table.contains_key("c"));
    assert_eq!(table.list(), vec!["a", "b"]);
    table.clear();
    assert!(table.is_empty());
}
