//! Hot reloading of application logic: the reload cycle, the registry of
//! state that survives it, and the task pipelines that each loaded
//! module contributes.

pub mod contents;
pub mod coordinator;
pub mod labels;
pub mod name_index;
pub mod names;
pub mod paths;
pub mod reloadable;
pub mod schedules;
pub mod store;
pub mod ui;
pub mod world;

pub use contents::ReloadableAppContents;
pub use coordinator::{
    hot_reload_occured, reload, setup_reloadable_app, update_lib_system, HotReload, HotReloadEvent,
    InternalHotReload, LoadedModule, ReloadAction, ReloadError, ReloadInput, ReloadLibEvent, ReloadPhase,
};
pub use labels::{
    CleanupReloaded, DeserializeReloadables, OnReloadComplete, ReloadableSchedule, ScheduleLabel,
    SerializeReloadables, SetupReload,
};
pub use paths::{EndWatch, HotReloadOptions, HotReloadPlugin, LibPathSet};
pub use reloadable::{ReloadableComponent, ReloadableResource, ReloadableSetup};
pub use schedules::{cleanup, register_schedules, ReloadableAppCleanup, Schedules};
pub use store::{ReloadableComponentStore, ReloadableResourceStore};
pub use world::ReloadableWorld;
