//! Finding plugins: where to look, and what a plugin directory must hold.
//!
//! The host walks the directories and reads the files; what it found is
//! judged here.

use vstd::prelude::*;
use std::path::PathBuf;
use crate::error::PluginError;
use crate::text::join2;
use crate::text::join3;
use crate::text::owned;
use crate::types::Plugin;
use crate::types::PluginMetadata;
use crate::vecs::reversed;

verus! {

/// What the host found of a plugin's metadata file.
pub enum MetadataSource {
    /// The directory has no metadata file.
    Absent,
    /// The metadata file could not be read.
    Unreadable { error: std::io::Error },
    /// The metadata file is not valid; `detail` says why.
    Malformed { detail: String },
    /// The metadata that the file gives.
    Parsed { metadata: PluginMetadata },
}

/// Whether `m` is the metadata of a plugin that has no metadata file and
/// lies in a directory called `name`.
pub open spec fn is_default_metadata(m: PluginMetadata, name: Seq<char>) -> bool {
    &&& m.name@ == name
    &&& m.version@ == "0.1.0"@
    &&& m.description is None
    &&& m.author is None
    &&& m.entry matches Some(e) && e@ == "init.lua"@
}

/// The plugins among the results of looking into directories, in order: a
/// directory that holds no valid plugin is left out.
pub open spec fn kept(results: Seq<Result<Plugin, PluginError>>) -> Seq<Plugin>
    decreases results.len(),
{
    if results.len() == 0 {
        Seq::empty()
    } else {
        match results.last() {
            Ok(p) => kept(results.drop_last()).push(p),
            Err(_) => kept(results.drop_last()),
        }
    }
}

/// Plugin loader responsible for discovering plugins.
pub struct PluginLoader {
    /// Directories to search for plugins
    plugin_dirs: Vec<PathBuf>,
}

impl PluginLoader {
    /// The directories that the loader searches, in order.
    pub closed spec fn view(&self) -> Seq<PathBuf> {
        self.plugin_dirs@
    }

    /// Create a new plugin loader with the given plugin directories
    pub fn new(plugin_dirs: Vec<PathBuf>) -> (r: Self)
        ensures
            r@ == plugin_dirs@,
    {
        PluginLoader { plugin_dirs }
    }

    /// The directories that the loader searches, in order.
    pub fn plugin_dirs(&self) -> (r: &Vec<PathBuf>)
        ensures
            r@ == self@,
    {
        &self.plugin_dirs
    }

    /// The metadata of a plugin without a metadata file: its name is the
    /// name of its directory, its version is `0.1.0` and its entry script is
    /// `init.lua`.
    pub fn default_metadata(directory_name: String) -> (m: PluginMetadata)
        ensures
            is_default_metadata(m, directory_name@),
    {
        PluginMetadata {
            name: directory_name,
            version: owned("0.1.0"),
            description: None,
            author: None,
            entry: Some(owned("init.lua")),
        }
    }

    /// Settles the metadata of the plugin in one directory. A metadata file
    /// decides where there is one; without one the name of the directory
    /// does, and a directory whose name is no text holds no plugin.
    pub fn resolve_metadata(source: MetadataSource, directory_name: Option<String>) -> (r: Result<
        PluginMetadata,
        PluginError,
    >)
        ensures
            source matches MetadataSource::Parsed { metadata } ==> r == Ok::<
                PluginMetadata,
                PluginError,
            >(metadata),
            source matches MetadataSource::Malformed { detail } ==> (r matches Err(
                PluginError::ConfigError(m),
            ) && m@ == "Failed to parse plugin.toml: "@ + detail@),
            source matches MetadataSource::Unreadable { error } ==> r == Err::<
                PluginMetadata,
                PluginError,
            >(PluginError::IoError(error)),
            source is Absent ==> match directory_name {
                Some(n) => r matches Ok(m) && is_default_metadata(m, n@),
                None => r matches Err(PluginError::InvalidPluginStructure(m)) && m@
                    == "Invalid plugin directory name"@,
            },
    {
        match source {
            MetadataSource::Parsed { metadata } => Ok(metadata),
            MetadataSource::Malformed { detail } => Err(
                PluginError::ConfigError(join2("Failed to parse plugin.toml: ", detail.as_str())),
            ),
            MetadataSource::Unreadable { error } => Err(PluginError::IoError(error)),
            MetadataSource::Absent => match directory_name {
                Some(n) => Ok(PluginLoader::default_metadata(n)),
                None => Err(
                    PluginError::InvalidPluginStructure(owned("Invalid plugin directory name")),
                ),
            },
        }
    }

    /// What is reported of a directory that lacks its entry script.
    pub open spec fn missing_entry_message(entry: Seq<char>, shown_path: Seq<char>) -> Seq<char> {
        "Entry point '"@ + entry + "' not found in "@ + shown_path
    }

    /// Accepts a plugin directory whose entry script exists, and rejects it
    /// in full otherwise. `shown_path` is how the directory is named in the
    /// rejection.
    pub fn describe_plugin(
        metadata: PluginMetadata,
        path: PathBuf,
        entry_exists: bool,
        shown_path: &str,
    ) -> (r: Result<Plugin, PluginError>)
        ensures
            entry_exists ==> r == Ok::<Plugin, PluginError>(
                Plugin { metadata, path, enabled: true },
            ),
            !entry_exists ==> (r matches Err(PluginError::InvalidPluginStructure(m)) && m@
                == Self::missing_entry_message(metadata.entry_name(), shown_path@)),
    {
        if entry_exists {
            Ok(Plugin { metadata, path, enabled: true })
        } else {
            let entry = metadata.entry_script();
            let head = join3("Entry point '", entry.as_str(), "' not found in ");
            Err(PluginError::InvalidPluginStructure(join2(head.as_str(), shown_path)))
        }
    }

    /// Discovers the plugins among what the host found in the directories of
    /// the loader: `results` holds, in the order in which the directories
    /// were looked into, the plugin of each or why it holds none. A
    /// directory that was rejected is skipped and does not keep the others
    /// from being found.
    pub fn discover_plugins(&self, results: Vec<Result<Plugin, PluginError>>) -> (r: Vec<Plugin>)
        ensures
            r@ == kept(results@),
    {
        let ghost all = results@;
        let mut stack = reversed(results);
        let mut plugins: Vec<Plugin> = Vec::new();
        let ghost mut done: int = 0;
        assert(all.take(0) =~= Seq::<Result<Plugin, PluginError>>::empty());
        while stack.len() > 0
            invariant
                0 <= done <= all.len(),
                stack@.len() == all.len() - done,
                stack@ == all.reverse().take(all.len() - done),
                plugins@ == kept(all.take(done)),
            decreases stack@.len(),
        {
            let ghost before = stack@;
            match stack.pop() {
                None => {},
                Some(found) => {
                    proof {
                        assert(found == all[done]);
                        assert(all.take(done + 1).drop_last() =~= all.take(done));
                        assert(all.take(done + 1).last() == all[done]);
                        assert(stack@ =~= all.reverse().take(all.len() - done - 1));
                        done = done + 1;
                    }
                    match found {
                        Ok(plugin) => {
                            plugins.push(plugin);
                        },
                        Err(_) => {},
                    }
                },
            }
        }
        assert(all.take(done) =~= all);
        plugins
    }
}

} // verus!
