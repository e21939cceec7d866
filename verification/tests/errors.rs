use helix_plugin::text::decimal_text;
use helix_plugin::PluginError;

#[test]
fn messages_name_the_kind_of_error() {
    let cases = vec![
        (PluginError::InitializationFailed("a".to_string()), "Plugin initialization failed: a"),
        (PluginError::PluginNotFound("b".to_string()), "Plugin not found: b"),
        (PluginError::PluginAlreadyLoaded("c".to_string()), "Plugin already loaded: c"),
        (
            PluginError::EventHandlerError { plugin: "p".to_string(), error: "boom".to_string() },
            "Event handler error in plugin 'p': boom",
        ),
        (PluginError::CommandExecutionFailed("d".to_string()), "Command execution failed: d"),
        (PluginError::InvalidPluginStructure("e".to_string()), "Invalid plugin structure: e"),
        (PluginError::ConfigError("f".to_string()), "Configuration error: f"),
        (PluginError::ApiAccessError("g".to_string()), "API access error: g"),
    ];
    for (error, expected) in cases {
        assert_eq!(error.message(), expected);
    }
}

#[test]
fn messages_of_outside_errors_keep_their_wording() {
    let lua = PluginError::LuaError(mlua::Error::RuntimeError("bad call".to_string()));
    assert_eq!(lua.message(), "Lua error: runtime error: bad call");
    let io = PluginError::IoError(std::io::Error::new(std::io::ErrorKind::Other, "disk full"));
    assert_eq!(io.message(), "IO error: disk full");
}

#[test]
fn numbers_are_written_in_decimal() {
    assert_eq!(decimal_text(0), "0");
    assert_eq!(decimal_text(7), "7");
    assert_eq!(decimal_text(10), "10");
    assert_eq!(decimal_text(305), "305");
    assert_eq!(decimal_text(1234567890), "1234567890");
    assert_eq!(decimal_text(usize::MAX), usize::MAX.to_string());
}
