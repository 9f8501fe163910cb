use hot_reload::paths::{
    build_command, setup_function_name, watch_arguments, HotReloadOptions, HotReloadPlugin, LibPathSet,
    MAIN_ENTRY_POINT, WATCH_PROGRAM,
};

fn defaults() -> LibPathSet {
    LibPathSet {
        folder: "/work/target/debug".to_string(),
        name: "libwork".to_string(),
        extension: "so".to_string(),
        watch_folder: "/work/src".to_string(),
    }
}

#[test]
fn options_say_nothing_by_default() {
    let options = HotReloadOptions::default();
    assert_eq!(options.lib_name, None);
    assert_eq!(options.watch_folder, None);
    assert_eq!(options.target_folder, None);
}

#[test]
fn what_the_options_leave_out_comes_from_the_defaults() {
    let paths = LibPathSet::new(&HotReloadOptions::default(), defaults());
    assert_eq!(paths.folder, "/work/target/debug");
    assert_eq!(paths.name, "libwork");
    assert_eq!(paths.extension, "so");
    assert_eq!(paths.watch_folder, "/work/src");
    assert_eq!(paths.lib_file_path(), "/work/target/debug/libwork.so");
}

#[test]
fn what_the_options_say_wins() {
    let options = HotReloadOptions {
        lib_name: Some("libgame".to_string()),
        watch_folder: Some("/game".to_string()),
        target_folder: Some("/out".to_string()),
    };
    let paths = LibPathSet::new(&options, defaults());
    assert_eq!(paths.folder, "/out");
    assert_eq!(paths.name, "libgame");
    assert_eq!(paths.extension, "so");
    assert_eq!(paths.watch_folder, "/game");
    assert_eq!(paths.lib_file_path(), "/out/libgame.so");
    let partly = HotReloadOptions { lib_name: Some("libgame".to_string()), ..HotReloadOptions::default() };
    assert_eq!(LibPathSet::new(&partly, defaults()).lib_file_path(), "/work/target/debug/libgame.so");
}

#[test]
fn a_copy_of_the_paths_is_equal() {
    let paths = defaults();
    let copy = paths.duplicate();
    assert_eq!(copy.folder, paths.folder);
    assert_eq!(copy.name, paths.name);
    assert_eq!(copy.extension, paths.extension);
    assert_eq!(copy.watch_folder, paths.watch_folder);
}

#[test]
fn the_build_is_told_where_to_build() {
    assert_eq!(
        build_command("/work/target"),
        "build --lib --target-dir /work/target --features bevy/dynamic_linking"
    );
    assert_eq!(build_command(""), "build --lib --target-dir  --features bevy/dynamic_linking");
}

#[test]
fn the_watcher_is_started_with_six_arguments() {
    assert_eq!(WATCH_PROGRAM, "cargo");
    assert_eq!(
        watch_arguments("/work/src", "/work/target"),
        vec![
            "watch",
            "--watch-when-idle",
            "-w",
            "/work/src",
            "-x",
            "build --lib --target-dir /work/target --features bevy/dynamic_linking",
        ]
    );
}

#[test]
fn entry_points_are_named_after_their_units() {
    assert_eq!(MAIN_ENTRY_POINT, "hot_reload_internal_main");
    assert_eq!(setup_function_name("reloadable"), "hot_reloaded_inner_reloadable");
    assert_eq!(setup_function_name(""), "hot_reloaded_inner_");
}

#[test]
fn a_plugin_carries_its_paths() {
    let plugin = HotReloadPlugin::new(defaults());
    assert_eq!(plugin.libs().lib_file_path(), "/work/target/debug/libwork.so");
    assert_eq!(plugin.libs().watch_folder, "/work/src");
}

#[test]
fn the_private_copy_lies_beside_the_artifact_with_the_same_extension() {
    let paths = defaults();
    assert_eq!(
        paths.private_file_path("3f0c9a52-7a1e-4c55-9d0b-0d2f6f1f5e11"),
        "/work/target/debug/3f0c9a52-7a1e-4c55-9d0b-0d2f6f1f5e11.so"
    );
    assert_eq!(paths.private_file_path("libwork"), paths.lib_file_path());
}
