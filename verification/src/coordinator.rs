//! The reload cycle.
//!
//! Each tick the host asks whether a fresher artifact has been built.
//! If one has, and the last swap is long enough ago, the cycle runs:
//! state is saved, what the loaded module set up is removed, the new
//! module is loaded and registers what it contributes, state is
//! restored, and the application is told. The host does the work of
//! each step and reports how it went; [`step`] says what comes next.
//!
//! Times are in milliseconds, counted from a moment of the host's
//! choosing.

use vstd::prelude::*;
use crate::contents::ReloadableAppContents;
use crate::paths::LibPathSet;
use crate::reloadable::ReloadableSetup;

verus! {

/// How long after a swap the next one may begin, unless the host says
/// otherwise: one second.
pub const DEFAULT_DEBOUNCE_MILLIS: u64 = 1000;

/// Where the reload cycle stands.
#[derive(Clone, Copy, Debug, PartialEq, Eq)]
pub enum ReloadPhase {
    Idle,
    ArtifactCheck,
    Serializing,
    Unloading,
    Loading,
    Registering,
    Deserializing,
    Notifying,
}

/// A module that the host has loaded.
#[derive(Clone, Copy, Debug, PartialEq, Eq)]
pub struct LoadedModule {
    /// The number by which the host knows the module.
    pub handle: u64,
    /// When the artifact that the module was loaded from was last modified.
    pub modified: u64,
}

/// What the application is told when a reload cycle is complete.
#[derive(Clone, Copy, Debug, PartialEq, Eq)]
pub struct HotReloadEvent {
    /// How many cycles have been completed, this one included.
    pub generation: usize,
    /// The time of the tick in which the cycle ran.
    pub last_update_time: u64,
}

/// Why a reload cycle did not complete.
#[derive(Clone, Copy, Debug, PartialEq, Eq)]
pub enum ReloadError {
    /// The artifact could not be loaded as a module.
    LoadFailure,
    /// The module does not export the entry point that registers its
    /// contributions.
    MissingEntryPoint,
}

/// What the host reports to the coordinator.
#[derive(Clone, Copy, Debug, PartialEq, Eq)]
pub enum ReloadInput {
    /// A tick of the application begins at time `now`.
    Tick { now: u64 },
    /// The artifact was looked at: when it was last modified, or `None`
    /// if it is not there as a regular file.
    Artifact { modified: Option<u64> },
    /// State has been saved.
    Saved,
    /// What the loaded module set up has been removed.
    Unloaded,
    /// The artifact has been loaded as the module `handle`.
    Loaded { handle: u64 },
    /// The artifact could not be loaded.
    LoadFailed,
    /// The module has registered what it contributes.
    Registered,
    /// The module does not export its registration entry point.
    EntryPointMissing,
    /// State has been restored.
    Restored,
    /// The application has been told.
    Notified,
}

/// What the host is to do next.
#[derive(Clone, Copy, Debug, PartialEq, Eq)]
pub enum ReloadAction {
    /// Nothing: the cycle is at rest until the next tick.
    Wait,
    /// Look at the artifact and report [`ReloadInput::Artifact`].
    CheckArtifact,
    /// Save the state that is to survive and report [`ReloadInput::Saved`].
    SaveAll,
    /// Remove what the loaded module set up, clear the pipelines that
    /// it contributed, and report [`ReloadInput::Unloaded`].
    Unload,
    /// Load the artifact that was last modified at `modified` and
    /// report [`ReloadInput::Loaded`] or [`ReloadInput::LoadFailed`].
    Load { modified: u64 },
    /// Call the registration entry point of `module` and report
    /// [`ReloadInput::Registered`] or [`ReloadInput::EntryPointMissing`].
    Register { module: LoadedModule },
    /// Dispose of the module `retired`, which nothing refers to any
    /// more, restore the saved state, and report [`ReloadInput::Restored`].
    RestoreAll { retired: Option<LoadedModule> },
    /// Tell the application and report [`ReloadInput::Notified`].
    Notify { event: HotReloadEvent },
    /// The cycle was given up and the module that was loaded before is
    /// still the current one: its pipelines are to be contributed
    /// again, the state stays as it is, and the host says why.
    Abort { error: ReloadError },
    /// The host and the module disagree about what a module exports:
    /// stop the process.
    Fatal { error: ReloadError },
    /// The report does not fit the phase that the cycle is in. Nothing
    /// has changed.
    Unexpected,
}

/// What the loader tells the coordinator about an attempt to load.
#[derive(Debug)]
pub enum ReloadLibEvent {
    /// The artifact has been loaded; the host knows the module by this number.
    UpdatedLib(u64),
    /// The artifact could not be loaded, and why.
    Error(String),
}

impl ReloadLibEvent {
    /// The report that the coordinator takes for this event.
    pub fn input(&self) -> (input: ReloadInput)
        ensures
            input == (match *self {
                ReloadLibEvent::UpdatedLib(handle) => ReloadInput::Loaded { handle },
                ReloadLibEvent::Error(_) => ReloadInput::LoadFailed,
            }),
    {
        match self {
            ReloadLibEvent::UpdatedLib(handle) => ReloadInput::Loaded { handle: *handle },
            ReloadLibEvent::Error(_) => ReloadInput::LoadFailed,
        }
    }
}

/// One more than `n`, as far as the type goes.
pub open spec fn bump(n: usize) -> usize {
    if n < usize::MAX {
        (n + 1) as usize
    } else {
        n
    }
}

/// What the coordinator knows.
pub struct ReloadModel {
    pub phase: ReloadPhase,
    /// The current module.
    pub library: Option<LoadedModule>,
    /// The module that was current before, while the new one registers.
    pub last_lib: Option<LoadedModule>,
    /// When the artifact that this cycle swaps in was last modified.
    pub pending: Option<u64>,
    /// The time of the latest tick.
    pub now: u64,
    /// The time of the tick in which the last swap was completed.
    pub last_update_time: Option<u64>,
    /// How long after a swap the next one may begin.
    pub debounce: u64,
    /// How many cycles have been completed.
    pub generation: usize,
    /// How many ticks there have been.
    pub frame: usize,
    /// The tick in which the last swap was completed.
    pub last_updated_frame: usize,
    /// Whether a swap was completed in the latest tick.
    pub updated_this_frame: bool,
}

impl ReloadModel {
    /// At rest, with no module loaded and no swap made.
    pub open spec fn initial(debounce: u64) -> ReloadModel {
        ReloadModel {
            phase: ReloadPhase::Idle,
            library: None,
            last_lib: None,
            pending: None,
            now: 0,
            last_update_time: None,
            debounce,
            generation: 0,
            frame: 0,
            last_updated_frame: 0,
            updated_this_frame: false,
        }
    }

    /// The artifact is there and strictly newer than the one that the
    /// current module was loaded from.
    pub open spec fn is_newer(self, modified: Option<u64>) -> bool {
        modified matches Some(at) && (self.library matches Some(module) ==> at > module.modified)
    }

    /// The last swap, if there was one, is at least the debounce
    /// interval before the latest tick.
    pub open spec fn debounce_elapsed(self) -> bool {
        self.last_update_time matches Some(last) ==> self.now >= last && self.now - last >= self.debounce
    }

    /// What must hold of the coordinator in each phase. Outside
    /// `Registering` there is exactly one module, the current one; once
    /// a cycle has been completed there always is one.
    pub open spec fn valid(self) -> bool {
        &&& (self.phase is Idle || self.phase is ArtifactCheck) ==> self.last_lib is None && self.pending is None
        &&& (self.phase is Serializing || self.phase is Unloading || self.phase is Loading)
            ==> self.last_lib is None && self.pending is Some && self.is_newer(self.pending)
        &&& self.phase is Registering ==> (self.library matches Some(module) && self.pending == Some(
            module.modified,
        ))
        &&& self.phase is Deserializing ==> self.last_lib is None && (self.library matches Some(module)
            && self.pending == Some(module.modified))
        &&& self.phase is Notifying ==> self.last_lib is None && self.pending is None && self.library is Some
        &&& self.generation > 0 ==> self.library is Some
        &&& self.last_update_time is Some ==> self.library is Some
    }
}

/// The next state of the coordinator and what the host is to do, for
/// each state and each report.
pub open spec fn step(m: ReloadModel, input: ReloadInput) -> (ReloadModel, ReloadAction) {
    match (m.phase, input) {
        (ReloadPhase::Idle, ReloadInput::Tick { now }) => (
            ReloadModel {
                phase: ReloadPhase::ArtifactCheck,
                now,
                frame: bump(m.frame),
                updated_this_frame: false,
                ..m
            },
            ReloadAction::CheckArtifact,
        ),
        (ReloadPhase::ArtifactCheck, ReloadInput::Artifact { modified }) => if m.is_newer(modified)
            && m.debounce_elapsed() {
            (ReloadModel { phase: ReloadPhase::Serializing, pending: modified, ..m }, ReloadAction::SaveAll)
        } else {
            (ReloadModel { phase: ReloadPhase::Idle, ..m }, ReloadAction::Wait)
        },
        (ReloadPhase::Serializing, ReloadInput::Saved) => (
            ReloadModel { phase: ReloadPhase::Unloading, ..m },
            ReloadAction::Unload,
        ),
        (ReloadPhase::Unloading, ReloadInput::Unloaded) => (
            ReloadModel { phase: ReloadPhase::Loading, ..m },
            ReloadAction::Load { modified: m.pending->0 },
        ),
        (ReloadPhase::Loading, ReloadInput::Loaded { handle }) => {
            let module = LoadedModule { handle, modified: m.pending->0 };
            (
                ReloadModel {
                    phase: ReloadPhase::Registering,
                    last_lib: m.library,
                    library: Some(module),
                    ..m
                },
                ReloadAction::Register { module },
            )
        },
        (ReloadPhase::Loading, ReloadInput::LoadFailed) => (
            ReloadModel { phase: ReloadPhase::Idle, pending: None, ..m },
            ReloadAction::Abort { error: ReloadError::LoadFailure },
        ),
        (ReloadPhase::Registering, ReloadInput::Registered) => (
            ReloadModel { phase: ReloadPhase::Deserializing, last_lib: None, ..m },
            ReloadAction::RestoreAll { retired: m.last_lib },
        ),
        (ReloadPhase::Registering, ReloadInput::EntryPointMissing) => (
            m,
            ReloadAction::Fatal { error: ReloadError::MissingEntryPoint },
        ),
        (ReloadPhase::Deserializing, ReloadInput::Restored) => {
            let generation = bump(m.generation);
            (
                ReloadModel {
                    phase: ReloadPhase::Notifying,
                    pending: None,
                    generation,
                    last_update_time: Some(m.now),
                    last_updated_frame: m.frame,
                    updated_this_frame: true,
                    ..m
                },
                ReloadAction::Notify { event: HotReloadEvent { generation, last_update_time: m.now } },
            )
        },
        (ReloadPhase::Notifying, ReloadInput::Notified) => (
            ReloadModel { phase: ReloadPhase::Idle, ..m },
            ReloadAction::Wait,
        ),
        _ => (m, ReloadAction::Unexpected),
    }
}

/// The state after one tick in which the host looks at the artifact,
/// last modified at `modified`, and reports nothing further.
pub open spec fn checked(m: ReloadModel, now: u64, modified: Option<u64>) -> ReloadModel {
    step(step(m, ReloadInput::Tick { now }).0, ReloadInput::Artifact { modified }).0
}

/// The state after the host has saved state and unloaded.
pub open spec fn unloaded(m: ReloadModel) -> ReloadModel {
    step(step(m, ReloadInput::Saved).0, ReloadInput::Unloaded).0
}

/// The state after one tick in which the artifact, last modified at
/// `modified`, is looked at and every step that follows succeeds, the
/// artifact being loaded as the module `handle`.
pub open spec fn swapped(m: ReloadModel, now: u64, modified: u64, handle: u64) -> ReloadModel {
    let loaded = step(unloaded(checked(m, now, Some(modified))), ReloadInput::Loaded { handle }).0;
    let restored = step(step(loaded, ReloadInput::Registered).0, ReloadInput::Restored).0;
    step(restored, ReloadInput::Notified).0
}

/// The state after one tick in which the artifact, last modified at
/// `modified`, is looked at and cannot be loaded.
pub open spec fn load_failed(m: ReloadModel, now: u64, modified: u64) -> ReloadModel {
    step(unloaded(checked(m, now, Some(modified))), ReloadInput::LoadFailed).0
}

/// Whatever the host reports, the coordinator stays as
/// [`ReloadModel::valid`] says.
pub proof fn lemma_step_valid(m: ReloadModel, input: ReloadInput)
    requires
        m.valid(),
    ensures
        step(m, input).0.valid(),
{
}

/// The count of completed cycles never goes down, and goes up only
/// where the host is told to notify the application.
pub proof fn lemma_generation_monotone(m: ReloadModel, input: ReloadInput)
    ensures
        step(m, input).0.generation >= m.generation,
        step(m, input).0.generation != m.generation ==> step(m, input).1 is Notify,
{
}

/// A report that does not fit the phase changes nothing.
pub proof fn lemma_unexpected_changes_nothing(m: ReloadModel, input: ReloadInput)
    requires
        step(m, input).1 is Unexpected,
    ensures
        step(m, input).0 == m,
{
}

/// Looking twice at an artifact that is not newer than the loaded one
/// starts no cycle: each time the coordinator goes from `Idle` to
/// `ArtifactCheck` and back, the host is told to wait, and but for the
/// count of ticks nothing is different afterwards.
pub proof fn lemma_unchanged_artifact_stays_idle(m: ReloadModel, first: u64, second: u64, modified: Option<u64>)
    requires
        m.valid(),
        m.phase is Idle,
        !m.is_newer(modified),
    ensures
        step(m, ReloadInput::Tick { now: first }).0.phase is ArtifactCheck,
        step(step(m, ReloadInput::Tick { now: first }).0, ReloadInput::Artifact { modified }).1 is Wait,
        checked(m, first, modified) == (ReloadModel {
            now: first,
            frame: bump(m.frame),
            updated_this_frame: false,
            ..m
        }),
        step(
            step(checked(m, first, modified), ReloadInput::Tick { now: second }).0,
            ReloadInput::Artifact { modified },
        ).1 is Wait,
        checked(checked(m, first, modified), second, modified) == (ReloadModel {
            now: second,
            frame: bump(bump(m.frame)),
            updated_this_frame: false,
            ..m
        }),
{
}

/// An artifact that is newer than the loaded one starts no cycle while
/// the last swap is less than the debounce interval ago.
pub proof fn lemma_debounce_holds_back(m: ReloadModel, now: u64, modified: Option<u64>)
    requires
        m.valid(),
        m.phase is Idle,
        m.last_update_time matches Some(last) && !(now >= last && now - last >= m.debounce),
    ensures
        step(step(m, ReloadInput::Tick { now }).0, ReloadInput::Artifact { modified }).1 is Wait,
        checked(m, now, modified) == (ReloadModel {
            now,
            frame: bump(m.frame),
            updated_this_frame: false,
            ..m
        }),
{
}

/// Two updates of the artifact within the debounce interval give one
/// swap, of the later artifact: neither is swapped in while the
/// interval runs, and the first look after it swaps in the artifact as
/// it is then.
pub proof fn lemma_debounce_one_swap(
    m: ReloadModel,
    first_look: u64,
    second_look: u64,
    third_look: u64,
    first: u64,
    second: u64,
    handle: u64,
)
    requires
        m.valid(),
        m.phase is Idle,
        m.last_update_time is Some,
        m.is_newer(Some(first)),
        first < second,
        !(first_look >= m.last_update_time->0 && first_look - m.last_update_time->0 >= m.debounce),
        !(second_look >= m.last_update_time->0 && second_look - m.last_update_time->0 >= m.debounce),
        third_look >= m.last_update_time->0 && third_look - m.last_update_time->0 >= m.debounce,
    ensures
        ({
            let held = checked(m, first_look, Some(first));
            let held_again = checked(held, second_look, Some(second));
            let done = swapped(held_again, third_look, second, handle);
            &&& held.phase is Idle && held.library == m.library && held.generation == m.generation
            &&& held_again.phase is Idle && held_again.library == m.library && held_again.generation
                == m.generation
            &&& done.phase is Idle
            &&& done.library == Some(LoadedModule { handle, modified: second })
            &&& done.last_lib is None
            &&& done.generation == bump(m.generation)
            &&& done.last_update_time == Some(third_look)
            &&& done.updated_this_frame
        }),
{
}

/// A swap that succeeds makes the new module the current one, counts
/// one generation, and hands the module that was current before to the
/// host for disposal only once the new one has registered.
pub proof fn lemma_swap_replaces_module(m: ReloadModel, now: u64, modified: u64, handle: u64)
    requires
        m.valid(),
        m.phase is Idle,
        m.is_newer(Some(modified)),
        m.last_update_time matches Some(last) ==> now >= last && now - last >= m.debounce,
    ensures
        ({
            let loading = unloaded(checked(m, now, Some(modified)));
            let registering = step(loading, ReloadInput::Loaded { handle });
            let deserializing = step(registering.0, ReloadInput::Registered);
            &&& loading.phase is Loading && loading.library == m.library
            &&& registering.1 == (ReloadAction::Register { module: LoadedModule { handle, modified } })
            &&& registering.0.last_lib == m.library
            &&& deserializing.1 == (ReloadAction::RestoreAll { retired: m.library })
            &&& swapped(m, now, modified, handle).library == Some(LoadedModule { handle, modified })
            &&& swapped(m, now, modified, handle).generation == bump(m.generation)
            &&& swapped(m, now, modified, handle).phase is Idle
        }),
{
}

/// An artifact that cannot be loaded leaves the module that was loaded
/// before as the current one: the cycle is given up, the coordinator is
/// at rest again, no generation is counted and nothing is handed over
/// for disposal.
pub proof fn lemma_load_failure_keeps_module(m: ReloadModel, now: u64, modified: u64)
    requires
        m.valid(),
        m.phase is Idle,
        m.is_newer(Some(modified)),
        m.last_update_time matches Some(last) ==> now >= last && now - last >= m.debounce,
    ensures
        step(m, ReloadInput::Tick { now }).1 is CheckArtifact,
        step(step(m, ReloadInput::Tick { now }).0, ReloadInput::Artifact { modified: Some(modified) }).1 is SaveAll,
        step(checked(m, now, Some(modified)), ReloadInput::Saved).1 is Unload,
        step(step(checked(m, now, Some(modified)), ReloadInput::Saved).0, ReloadInput::Unloaded).1 == (
        ReloadAction::Load { modified }),
        step(unloaded(checked(m, now, Some(modified))), ReloadInput::LoadFailed).1 == (ReloadAction::Abort {
            error: ReloadError::LoadFailure,
        }),
        load_failed(m, now, modified) == (ReloadModel {
            now,
            frame: bump(m.frame),
            updated_this_frame: false,
            ..m
        }),
{
}

/// What the application may read about reloads.
#[derive(Debug)]
pub struct HotReload {
    /// The tick in which the last swap was completed.
    pub last_updated_frame: usize,
    /// How many cycles have been completed.
    pub version: usize,
    /// Whether a swap was completed in the latest tick.
    pub updated_this_frame: bool,
}

impl Default for HotReload {
    fn default() -> (status: Self)
        ensures
            status.last_updated_frame == 0,
            status.version == 0,
            !status.updated_this_frame,
    {
        HotReload { last_updated_frame: 0, version: 0, updated_this_frame: false }
    }
}

/// The coordinator of the reload cycle.
pub struct InternalHotReload {
    library: Option<LoadedModule>,
    last_lib: Option<LoadedModule>,
    updated_this_frame: bool,
    last_update_time: Option<u64>,
    libs: LibPathSet,
    phase: ReloadPhase,
    pending: Option<u64>,
    now: u64,
    debounce: u64,
    generation: usize,
    frame: usize,
    last_updated_frame: usize,
}

impl View for InternalHotReload {
    type V = ReloadModel;

    closed spec fn view(&self) -> ReloadModel {
        ReloadModel {
            phase: self.phase,
            library: self.library,
            last_lib: self.last_lib,
            pending: self.pending,
            now: self.now,
            last_update_time: self.last_update_time,
            debounce: self.debounce,
            generation: self.generation,
            frame: self.frame,
            last_updated_frame: self.last_updated_frame,
            updated_this_frame: self.updated_this_frame,
        }
    }
}

impl InternalHotReload {
    /// The coordinator is in a state that the cycle can reach.
    pub closed spec fn wf(&self) -> bool {
        self@.valid()
    }

    /// The paths that the coordinator was made with.
    pub closed spec fn paths(&self) -> LibPathSet {
        self.libs
    }

    /// What holds of every coordinator that the cycle can reach.
    pub proof fn lemma_valid(&self)
        requires
            self.wf(),
        ensures
            self@.valid(),
    {
    }

    /// A coordinator at rest, with no module loaded yet, that lets
    /// `debounce` milliseconds pass between a swap and the next.
    pub fn new(libs: LibPathSet, debounce: u64) -> (coordinator: Self)
        ensures
            coordinator.wf(),
            coordinator@ == ReloadModel::initial(debounce),
            coordinator.paths() == libs,
    {
        InternalHotReload {
            library: None,
            last_lib: None,
            updated_this_frame: false,
            last_update_time: None,
            libs,
            phase: ReloadPhase::Idle,
            pending: None,
            now: 0,
            debounce,
            generation: 0,
            frame: 0,
            last_updated_frame: 0,
        }
    }

    pub fn phase(&self) -> (phase: ReloadPhase)
        ensures
            phase == self@.phase,
    {
        self.phase
    }

    /// The current module.
    pub fn library(&self) -> (library: Option<LoadedModule>)
        ensures
            library == self@.library,
    {
        self.library
    }

    /// The module that was current before, while the new one registers.
    pub fn last_lib(&self) -> (last_lib: Option<LoadedModule>)
        ensures
            last_lib == self@.last_lib,
    {
        self.last_lib
    }

    /// How many cycles have been completed.
    pub fn generation(&self) -> (generation: usize)
        ensures
            generation == self@.generation,
    {
        self.generation
    }

    /// The time of the tick in which the last swap was completed.
    pub fn last_update_time(&self) -> (time: Option<u64>)
        ensures
            time == self@.last_update_time,
    {
        self.last_update_time
    }

    /// Whether a swap was completed in the latest tick.
    pub fn updated_this_frame(&self) -> (updated: bool)
        ensures
            updated == self@.updated_this_frame,
    {
        self.updated_this_frame
    }

    /// The paths that the coordinator was made with.
    pub fn libs(&self) -> (libs: &LibPathSet)
        ensures
            *libs == self.paths(),
    {
        &self.libs
    }

    /// What the application may read.
    pub fn status(&self) -> (status: HotReload)
        ensures
            status.last_updated_frame == self@.last_updated_frame,
            status.version == self@.generation,
            status.updated_this_frame == self@.updated_this_frame,
    {
        HotReload {
            last_updated_frame: self.last_updated_frame,
            version: self.generation,
            updated_this_frame: self.updated_this_frame,
        }
    }

    fn is_newer(&self, modified: Option<u64>) -> (newer: bool)
        ensures
            newer == self@.is_newer(modified),
    {
        match modified {
            None => false,
            Some(at) => match self.library {
                None => true,
                Some(module) => at > module.modified,
            },
        }
    }

    fn debounce_elapsed(&self) -> (elapsed: bool)
        ensures
            elapsed == self@.debounce_elapsed(),
    {
        match self.last_update_time {
            None => true,
            Some(last) => self.now >= last && self.now - last >= self.debounce,
        }
    }

    /// Takes a report of the host and says what the host is to do next.
    pub fn step(&mut self, input: ReloadInput) -> (action: ReloadAction)
        requires
            old(self).wf(),
        ensures
            final(self).wf(),
            final(self).paths() == old(self).paths(),
            (final(self)@, action) == step(old(self)@, input),
    {
        match (self.phase, input) {
            (ReloadPhase::Idle, ReloadInput::Tick { now }) => {
                self.phase = ReloadPhase::ArtifactCheck;
                self.now = now;
                self.frame = next(self.frame);
                self.updated_this_frame = false;
                ReloadAction::CheckArtifact
            },
            (ReloadPhase::ArtifactCheck, ReloadInput::Artifact { modified }) => {
                if self.is_newer(modified) && self.debounce_elapsed() {
                    self.phase = ReloadPhase::Serializing;
                    self.pending = modified;
                    ReloadAction::SaveAll
                } else {
                    self.phase = ReloadPhase::Idle;
                    ReloadAction::Wait
                }
            },
            (ReloadPhase::Serializing, ReloadInput::Saved) => {
                self.phase = ReloadPhase::Unloading;
                ReloadAction::Unload
            },
            (ReloadPhase::Unloading, ReloadInput::Unloaded) => {
                match self.pending {
                    Some(modified) => {
                        self.phase = ReloadPhase::Loading;
                        ReloadAction::Load { modified }
                    },
                    None => ReloadAction::Unexpected,
                }
            },
            (ReloadPhase::Loading, ReloadInput::Loaded { handle }) => {
                match self.pending {
                    Some(modified) => {
                        let module = LoadedModule { handle, modified };
                        self.phase = ReloadPhase::Registering;
                        self.last_lib = self.library;
                        self.library = Some(module);
                        ReloadAction::Register { module }
                    },
                    None => ReloadAction::Unexpected,
                }
            },
            (ReloadPhase::Loading, ReloadInput::LoadFailed) => {
                self.phase = ReloadPhase::Idle;
                self.pending = None;
                ReloadAction::Abort { error: ReloadError::LoadFailure }
            },
            (ReloadPhase::Registering, ReloadInput::Registered) => {
                let retired = self.last_lib;
                self.phase = ReloadPhase::Deserializing;
                self.last_lib = None;
                ReloadAction::RestoreAll { retired }
            },
            (ReloadPhase::Registering, ReloadInput::EntryPointMissing) => {
                ReloadAction::Fatal { error: ReloadError::MissingEntryPoint }
            },
            (ReloadPhase::Deserializing, ReloadInput::Restored) => {
                let generation = next(self.generation);
                self.phase = ReloadPhase::Notifying;
                self.pending = None;
                self.generation = generation;
                self.last_update_time = Some(self.now);
                self.last_updated_frame = self.frame;
                self.updated_this_frame = true;
                ReloadAction::Notify { event: HotReloadEvent { generation, last_update_time: self.now } }
            },
            (ReloadPhase::Notifying, ReloadInput::Notified) => {
                self.phase = ReloadPhase::Idle;
                ReloadAction::Wait
            },
            _ => ReloadAction::Unexpected,
        }
    }
}

/// One more than `n`, as far as the type goes.
fn next(n: usize) -> (m: usize)
    ensures
        m == bump(n),
{
    if n < usize::MAX {
        n + 1
    } else {
        n
    }
}

/// Begins a tick at time `now`: the coordinator, if it is at rest,
/// goes on to look at the artifact. What the application may read is
/// brought up to date.
pub fn update_lib_system(internal: &mut InternalHotReload, hot_reload: &mut HotReload, now: u64) -> (action:
    ReloadAction)
    requires
        old(internal).wf(),
    ensures
        final(internal).wf(),
        final(internal).paths() == old(internal).paths(),
        (final(internal)@, action) == step(old(internal)@, ReloadInput::Tick { now }),
        final(hot_reload).last_updated_frame == final(internal)@.last_updated_frame,
        final(hot_reload).version == final(internal)@.generation,
        final(hot_reload).updated_this_frame == final(internal)@.updated_this_frame,
{
    reload(internal, hot_reload, ReloadInput::Tick { now })
}

/// Takes a report of the host, says what the host is to do next, and
/// brings what the application may read up to date.
pub fn reload(internal: &mut InternalHotReload, hot_reload: &mut HotReload, input: ReloadInput) -> (action:
    ReloadAction)
    requires
        old(internal).wf(),
    ensures
        final(internal).wf(),
        final(internal).paths() == old(internal).paths(),
        (final(internal)@, action) == step(old(internal)@, input),
        final(hot_reload).last_updated_frame == final(internal)@.last_updated_frame,
        final(hot_reload).version == final(internal)@.generation,
        final(hot_reload).updated_this_frame == final(internal)@.updated_this_frame,
{
    let action = internal.step(input);
    *hot_reload = internal.status();
    action
}

/// Whether a swap was completed in the latest tick.
pub fn hot_reload_occured(reload: &InternalHotReload) -> (occured: bool)
    ensures
        occured == reload@.updated_this_frame,
{
    reload.updated_this_frame
}

/// Whether the tasks that set a state of the application up are to
/// run: while the application is in that state, in a tick in which a
/// swap was completed or the state was entered.
pub fn setup_is_due(in_state: bool, reloaded: bool, state_changed: bool) -> (due: bool)
    ensures
        due == (in_state && (reloaded || state_changed)),
{
    in_state && (reloaded || state_changed)
}

/// How a reloadable unit gets to register what it contributes.
#[derive(Clone, Copy, Debug, PartialEq, Eq)]
pub enum SetupStep {
    /// There is no coordinator: nothing was done.
    Skipped,
    /// No module is loaded: the unit's own default was applied.
    DefaultApplied,
    /// The host is to call the entry point `name` of `module`; if the
    /// module does not export it, the process must stop.
    CallEntryPoint { module: LoadedModule, name: &'static str },
}

/// Lets the reloadable unit `T` register what it contributes: through
/// the loaded module if there is one, else by the unit's own default.
pub fn setup_reloadable_app<T: ReloadableSetup>(
    internal: Option<&InternalHotReload>,
    contents: &mut ReloadableAppContents,
) -> (step: SetupStep)
    requires
        old(contents).wf(),
    ensures
        final(contents).wf(),
        internal is None ==> step is Skipped && *final(contents) == *old(contents),
        internal matches Some(state) ==> (match state@.library {
            Some(module) => step matches SetupStep::CallEntryPoint { module: called, name } && called
                == module && call_ensures(T::setup_function_name, (), name) && *final(contents) == *old(
                contents,
            ),
            None => step is DefaultApplied,
        }),
{
    match internal {
        None => SetupStep::Skipped,
        Some(state) => match state.library {
            Some(module) => SetupStep::CallEntryPoint { module, name: T::setup_function_name() },
            None => {
                T::default_function(contents);
                SetupStep::DefaultApplied
            },
        },
    }
}

} // verus!
