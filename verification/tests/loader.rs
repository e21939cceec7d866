use helix_plugin::lua::loader::MetadataSource;
use helix_plugin::lua::loader::PluginLoader;
use helix_plugin::types::Plugin;
use helix_plugin::types::PluginMetadata;
use helix_plugin::PluginError;
use std::path::PathBuf;

fn metadata(name: &str, version: &str, entry: Option<&str>) -> PluginMetadata {
    PluginMetadata {
        name: name.to_string(),
        version: version.to_string(),
        description: Some("A test plugin".to_string()),
        author: Some("Test Author".to_string()),
        entry: entry.map(|e| e.to_string()),
    }
}

#[test]
fn loader_keeps_its_directories() {
    let dirs = vec![PathBuf::from("/a/plugins"), PathBuf::from("/b/plugins")];
    let loader = PluginLoader::new(dirs.clone());
    assert_eq!(loader.plugin_dirs(), &dirs);
}

#[test]
fn directory_without_metadata_gets_defaults() {
    let resolved =
        PluginLoader::resolve_metadata(MetadataSource::Absent, Some("simple-plugin".to_string()))
            .unwrap();
    let plugin = PluginLoader::describe_plugin(
        resolved,
        PathBuf::from("/plugins/simple-plugin"),
        true,
        "\"/plugins/simple-plugin\"",
    )
    .unwrap();
    assert_eq!(plugin.metadata.name, "simple-plugin");
    assert_eq!(plugin.metadata.version, "0.1.0");
    assert_eq!(plugin.metadata.description, None);
    assert_eq!(plugin.metadata.author, None);
    assert_eq!(plugin.metadata.entry, Some("init.lua".to_string()));
    assert_eq!(plugin.metadata.entry_script(), "init.lua");
    assert_eq!(plugin.path, PathBuf::from("/plugins/simple-plugin"));
    assert!(plugin.enabled);
}

#[test]
fn metadata_file_decides_where_there_is_one() {
    let parsed = MetadataSource::Parsed { metadata: metadata("test-plugin", "1.0.0", Some("main.lua")) };
    let resolved = PluginLoader::resolve_metadata(parsed, Some("directory".to_string())).unwrap();
    assert_eq!(resolved.name, "test-plugin");
    assert_eq!(resolved.version, "1.0.0");
    assert_eq!(resolved.entry_script(), "main.lua");
}

#[test]
fn entry_defaults_to_init_lua() {
    assert_eq!(metadata("p", "1", None).entry_script(), "init.lua");
    let default = PluginMetadata::default();
    assert_eq!(default.name, "");
    assert_eq!(default.version, "0.1.0");
    assert_eq!(default.entry, Some("init.lua".to_string()));
}

#[test]
fn malformed_metadata_is_a_config_error() {
    let source = MetadataSource::Malformed { detail: "expected `=`".to_string() };
    match PluginLoader::resolve_metadata(source, Some("p".to_string())) {
        Err(PluginError::ConfigError(m)) => {
            assert_eq!(m, "Failed to parse plugin.toml: expected `=`")
        }
        other => panic!("unexpected result: {:?}", other),
    }
}

#[test]
fn unreadable_metadata_is_an_io_error() {
    let error = std::io::Error::new(std::io::ErrorKind::NotFound, "gone");
    match PluginLoader::resolve_metadata(MetadataSource::Unreadable { error }, None) {
        Err(PluginError::IoError(e)) => assert_eq!(e.kind(), std::io::ErrorKind::NotFound),
        other => panic!("unexpected result: {:?}", other),
    }
}

#[test]
fn directory_without_a_name_is_rejected() {
    match PluginLoader::resolve_metadata(MetadataSource::Absent, None) {
        Err(PluginError::InvalidPluginStructure(m)) => {
            assert_eq!(m, "Invalid plugin directory name")
        }
        other => panic!("unexpected result: {:?}", other),
    }
}

#[test]
fn directory_without_entry_script_is_rejected() {
    let result = PluginLoader::describe_plugin(
        metadata("broken-plugin", "1.0.0", None),
        PathBuf::from("/plugins/broken-plugin"),
        false,
        "\"/plugins/broken-plugin\"",
    );
    match result {
        Err(PluginError::InvalidPluginStructure(m)) => {
            assert_eq!(m, "Entry point 'init.lua' not found in \"/plugins/broken-plugin\"")
        }
        other => panic!("unexpected result: {:?}", other),
    }
    let result = PluginLoader::describe_plugin(
        metadata("broken-plugin", "1.0.0", Some("main.lua")),
        PathBuf::from("x"),
        false,
        "x",
    );
    match result {
        Err(PluginError::InvalidPluginStructure(m)) => {
            assert_eq!(m, "Entry point 'main.lua' not found in x")
        }
        other => panic!("unexpected result: {:?}", other),
    }
}

#[test]
fn rejected_directories_are_skipped() {
    let good = |name: &str| -> Result<Plugin, PluginError> {
        Ok(Plugin {
            metadata: metadata(name, "1.0.0", None),
            path: PathBuf::from(name),
            enabled: true,
        })
    };
    let results = vec![
        good("a"),
        Err(PluginError::InvalidPluginStructure("no entry".to_string())),
        good("b"),
        Err(PluginError::ConfigError("bad".to_string())),
        good("c"),
    ];
    let loader = PluginLoader::new(vec![PathBuf::from("/plugins")]);
    let plugins = loader.discover_plugins(results);
    let names: Vec<&str> = plugins.iter().map(|p| p.metadata.name.as_str()).collect();
    assert_eq!(names, vec!["a", "b", "c"]);
    assert_eq!(loader.discover_plugins(vec![]).len(), 0);
}

/// What the host finds in a directory that holds `plugin.toml` with these
/// fields, and an entry script if `entry_exists`.
fn look_into(
    dir: &str,
    source: MetadataSource,
    entry_exists: bool,
) -> Result<Plugin, PluginError> {
    let name = PathBuf::from(dir).file_name().and_then(|n| n.to_str()).map(|n| n.to_string());
    let resolved = PluginLoader::resolve_metadata(source, name)?;
    PluginLoader::describe_plugin(resolved, PathBuf::from(dir), entry_exists, &format!("{:?}", dir))
}

#[test]
fn test_discover_empty_directory() {
    let loader = PluginLoader::new(vec![PathBuf::from("/tmp/empty")]);

    let plugins = loader.discover_plugins(vec![]);
    assert_eq!(plugins.len(), 0);
}

#[test]
fn test_load_plugin_with_metadata() {
    let parsed = MetadataSource::Parsed {
        metadata: PluginMetadata {
            name: "test-plugin".to_string(),
            version: "1.0.0".to_string(),
            description: Some("A test plugin".to_string()),
            author: Some("Test Author".to_string()),
            entry: Some("init.lua".to_string()),
        },
    };

    let loader = PluginLoader::new(vec![PathBuf::from("/tmp/plugins")]);
    let plugins = loader.discover_plugins(vec![look_into("/tmp/plugins/test-plugin", parsed, true)]);

    assert_eq!(plugins.len(), 1);
    assert_eq!(plugins[0].metadata.name, "test-plugin");
    assert_eq!(plugins[0].metadata.version, "1.0.0");
}

#[test]
fn test_load_plugin_without_metadata() {
    let loader = PluginLoader::new(vec![PathBuf::from("/tmp/plugins")]);
    let plugins = loader.discover_plugins(vec![look_into(
        "/tmp/plugins/simple-plugin",
        MetadataSource::Absent,
        true,
    )]);

    assert_eq!(plugins.len(), 1);
    assert_eq!(plugins[0].metadata.name, "simple-plugin");
    assert_eq!(plugins[0].metadata.version, "0.1.0");
}

#[test]
fn test_missing_entry_point() {
    let parsed = MetadataSource::Parsed {
        metadata: PluginMetadata {
            name: "broken-plugin".to_string(),
            version: "1.0.0".to_string(),
            description: None,
            author: None,
            entry: None,
        },
    };

    let loader = PluginLoader::new(vec![PathBuf::from("/tmp/plugins")]);
    let plugins =
        loader.discover_plugins(vec![look_into("/tmp/plugins/broken-plugin", parsed, false)]);

    // Should skip the broken plugin
    assert_eq!(plugins.len(), 0);
}
