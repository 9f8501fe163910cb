//! Where the build writes the artifact, what is watched, and how the
//! build that watches is started.

use vstd::prelude::*;
use vstd::string::StringExecFns;

verus! {

/// The program that watches the sources and rebuilds the artifact.
pub const WATCH_PROGRAM: &'static str = "cargo";

/// The entry point of a module that runs the application.
pub const MAIN_ENTRY_POINT: &'static str = "hot_reload_internal_main";

/// What the application may say about where things are. What it leaves
/// out is taken from the host's defaults.
#[derive(Debug)]
pub struct HotReloadOptions {
    /// The name of the module.
    pub lib_name: Option<String>,
    /// The directory whose changes start a build.
    pub watch_folder: Option<String>,
    /// The directory into which the build writes the artifact.
    pub target_folder: Option<String>,
}

impl Default for HotReloadOptions {
    fn default() -> (options: Self)
        ensures
            options.lib_name is None,
            options.watch_folder is None,
            options.target_folder is None,
    {
        HotReloadOptions { lib_name: None, watch_folder: None, target_folder: None }
    }
}

/// Where things are.
#[derive(Debug)]
pub struct LibPathSet {
    /// The directory into which the build writes the artifact.
    pub folder: String,
    /// The file name of the artifact, without its extension.
    pub name: String,
    /// The extension that a loadable module has on this platform.
    pub extension: String,
    /// The directory whose changes start a build.
    pub watch_folder: String,
}

/// The path of the artifact named `name` with the extension
/// `extension` in the directory `folder`.
pub open spec fn artifact_path(folder: Seq<char>, name: Seq<char>, extension: Seq<char>) -> Seq<char> {
    folder + "/"@ + name + "."@ + extension
}

/// The arguments with which the build is told to build the module
/// into `target_dir`.
pub open spec fn build_arguments(target_dir: Seq<char>) -> Seq<char> {
    "build --lib --target-dir "@ + target_dir + " --features bevy/dynamic_linking"@
}

/// The name of the entry point that a module exports for the
/// reloadable unit `unit`.
pub open spec fn setup_name(unit: Seq<char>) -> Seq<char> {
    "hot_reloaded_inner_"@ + unit
}

impl LibPathSet {
    /// The paths that `options` and, where they say nothing, `defaults` give.
    pub fn new(options: &HotReloadOptions, defaults: LibPathSet) -> (paths: LibPathSet)
        ensures
            paths.name@ == (match options.lib_name {
                Some(name) => name@,
                None => defaults.name@,
            }),
            paths.folder@ == (match options.target_folder {
                Some(folder) => folder@,
                None => defaults.folder@,
            }),
            paths.watch_folder@ == (match options.watch_folder {
                Some(folder) => folder@,
                None => defaults.watch_folder@,
            }),
            paths.extension@ == defaults.extension@,
    {
        let LibPathSet { folder, name, extension, watch_folder } = defaults;
        let name = match &options.lib_name {
            Some(given) => given.clone(),
            None => name,
        };
        let folder = match &options.target_folder {
            Some(given) => given.clone(),
            None => folder,
        };
        let watch_folder = match &options.watch_folder {
            Some(given) => given.clone(),
            None => watch_folder,
        };
        LibPathSet { folder, name, extension, watch_folder }
    }

    /// A copy of these paths.
    pub fn duplicate(&self) -> (paths: LibPathSet)
        ensures
            paths == *self,
    {
        LibPathSet {
            folder: self.folder.clone(),
            name: self.name.clone(),
            extension: self.extension.clone(),
            watch_folder: self.watch_folder.clone(),
        }
    }

    /// The private path to which the artifact is moved before it is
    /// loaded: beside the artifact, with the same extension, named by
    /// `identifier`, which the host makes up anew for each load.
    pub fn private_file_path(&self, identifier: &str) -> (path: String)
        ensures
            path@ == artifact_path(self.folder@, identifier@, self.extension@),
    {
        let mut path = self.folder.clone();
        path.append("/");
        path.append(identifier);
        path.append(".");
        path.append(self.extension.as_str());
        path
    }

    /// The path at which the build writes the artifact.
    pub fn lib_file_path(&self) -> (path: String)
        ensures
            path@ == artifact_path(self.folder@, self.name@, self.extension@),
    {
        let mut path = self.folder.clone();
        path.append("/");
        path.append(self.name.as_str());
        path.append(".");
        path.append(self.extension.as_str());
        path
    }
}

/// The arguments with which the build is told to build the module
/// into `target_dir`, as one string.
pub fn build_command(target_dir: &str) -> (command: String)
    ensures
        command@ == build_arguments(target_dir@),
{
    let mut command = String::from_str("build --lib --target-dir ");
    command.append(target_dir);
    command.append(" --features bevy/dynamic_linking");
    command
}

/// The arguments with which [`WATCH_PROGRAM`] is started, so that it
/// rebuilds the module into `target_dir` whenever `watch_folder` changes.
pub fn watch_arguments(watch_folder: &str, target_dir: &str) -> (arguments: Vec<String>)
    ensures
        arguments@.len() == 6,
        arguments@[0]@ == "watch"@,
        arguments@[1]@ == "--watch-when-idle"@,
        arguments@[2]@ == "-w"@,
        arguments@[3]@ == watch_folder@,
        arguments@[4]@ == "-x"@,
        arguments@[5]@ == build_arguments(target_dir@),
{
    let mut arguments: Vec<String> = Vec::new();
    arguments.push(String::from_str("watch"));
    arguments.push(String::from_str("--watch-when-idle"));
    arguments.push(String::from_str("-w"));
    arguments.push(String::from_str(watch_folder));
    arguments.push(String::from_str("-x"));
    arguments.push(build_command(target_dir));
    arguments
}

/// The name of the entry point that a module exports for the
/// reloadable unit `unit`.
pub fn setup_function_name(unit: &str) -> (name: String)
    ensures
        name@ == setup_name(unit@),
{
    let mut name = String::from_str("hot_reloaded_inner_");
    name.append(unit);
    name
}

/// What the application hands to the module that runs it: where things are.
pub struct HotReloadPlugin(LibPathSet);

impl HotReloadPlugin {
    /// The paths that the plugin was made with.
    pub closed spec fn paths(&self) -> LibPathSet {
        self.0
    }

    pub fn new(libs: LibPathSet) -> (plugin: Self)
        ensures
            plugin.paths() == libs,
    {
        Self(libs)
    }

    /// The paths that the plugin was made with.
    pub fn libs(&self) -> (libs: &LibPathSet)
        ensures
            *libs == self.paths(),
    {
        &self.0
    }
}

/// Tells the thread that supervises the build to end.
pub struct EndWatch;

} // verus!
