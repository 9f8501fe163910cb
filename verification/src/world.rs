//! Everything that a reload touches, in one place.
//!
//! The host does what only it can do: look at the artifact, write and
//! read values, load the module and call its entry point. It reports
//! each step here; what the step means for the pipelines and for the
//! saved state is done here, so that no step can be forgotten.

use vstd::prelude::*;
use crate::contents::{ContentsView, ReloadableAppContents};
use crate::coordinator::{
    reload,
    step,
    HotReload,
    InternalHotReload,
    ReloadAction,
    ReloadInput,
    ReloadModel,
    ReloadPhase,
};
use crate::labels::{
    CleanupReloaded,
    DeserializeReloadables,
    OnReloadComplete,
    ScheduleLabel,
    SerializeReloadables,
    SetupReload,
};
use crate::paths::{HotReloadPlugin, LibPathSet};
use crate::reloadable::{ReloadableComponent, ReloadableResource};
use crate::schedules::{cleanup, register_schedules, ReloadableAppCleanup, Schedules, SchedulesView};
use crate::store::{
    bytes_of,
    deserialize_reloadable_component,
    deserialize_reloadable_resource,
    instances_of,
    reattaches,
    recorded,
    recorded_instances,
    restores_resource,
    serialize_reloadable_component,
    serialize_reloadable_resource,
    snapshot_of,
    ReloadableComponentStore,
    ReloadableResourceStore,
};

verus! {

/// What a [`ReloadableWorld`] holds.
#[verifier::ext_equal]
pub struct WorldView {
    /// Where the reload cycle stands.
    pub cycle: ReloadModel,
    /// The host's pipelines.
    pub schedules: SchedulesView,
    /// The names under which the loaded module contributed pipelines.
    pub contributed: Set<Seq<char>>,
    /// The names under which the loaded module was the first to contribute.
    pub forwarded: Set<Seq<char>>,
    /// The saved singleton values.
    pub resources: Map<Seq<char>, Seq<u8>>,
    /// The saved per-instance values.
    pub components: Map<Seq<char>, Seq<(u64, Seq<u8>)>>,
}

impl WorldView {
    /// At rest, with no module, no pipelines and nothing saved.
    pub open spec fn initial(debounce: u64) -> WorldView {
        WorldView {
            cycle: ReloadModel::initial(debounce),
            schedules: SchedulesView::empty(),
            contributed: Set::empty(),
            forwarded: Set::empty(),
            resources: Map::empty(),
            components: Map::empty(),
        }
    }

    /// Whether state may be saved or is being held: from `Serializing`
    /// until it has been restored.
    pub open spec fn holds_state(self) -> bool {
        self.cycle.phase is Serializing || self.cycle.phase is Unloading || self.cycle.phase is Loading
            || self.cycle.phase is Registering || self.cycle.phase is Deserializing
    }

    /// What must hold of the world in each phase: the cycle is valid,
    /// every permanent pipeline forwards as it should, saved state
    /// exists only while a cycle runs, and retired tasks only between
    /// the clearing of the pipelines and the registration of the next
    /// module.
    pub open spec fn valid(self) -> bool {
        &&& self.cycle.valid()
        &&& self.schedules.well_linked()
        &&& !self.holds_state() ==> self.resources == Map::<Seq<char>, Seq<u8>>::empty() && self.components
            == Map::<Seq<char>, Seq<(u64, Seq<u8>)>>::empty()
        &&& !(self.cycle.phase is Loading || self.cycle.phase is Registering) ==> self.schedules.retired
            == Map::<Seq<char>, Seq<u64>>::empty()
    }

    /// The world after a report, and what the host is to do next.
    /// `contents` is what the module registered; it counts only where
    /// the report is [`ReloadInput::Registered`].
    pub open spec fn report(self, input: ReloadInput, contents: ContentsView) -> (WorldView, ReloadAction) {
        let (cycle, action) = step(self.cycle, input);
        let world = match action {
            ReloadAction::Load { .. } => WorldView {
                cycle,
                schedules: self.schedules.clear(self.contributed),
                ..self
            },
            ReloadAction::Abort { .. } => WorldView {
                cycle,
                schedules: self.schedules.reinstate(),
                resources: Map::empty(),
                components: Map::empty(),
                ..self
            },
            ReloadAction::RestoreAll { .. } => WorldView {
                cycle,
                schedules: self.schedules.register(contents.schedules),
                contributed: contents.schedules.dom(),
                forwarded: self.schedules.first_contributions(contents.schedules),
                ..self
            },
            ReloadAction::Notify { .. } => WorldView {
                cycle,
                resources: Map::empty(),
                components: Map::empty(),
                ..self
            },
            _ => WorldView { cycle, ..self },
        };
        (world, action)
    }

    /// The world after a report that brings nothing with it.
    pub open spec fn after(self, input: ReloadInput) -> WorldView {
        self.report(input, ContentsView::empty()).0
    }

    /// The world after one tick in which the artifact, last modified at
    /// `modified`, is due but cannot be loaded.
    pub open spec fn load_failed(self, now: u64, modified: u64) -> WorldView {
        self.after(ReloadInput::Tick { now }).after(ReloadInput::Artifact { modified: Some(modified) }).after(
            ReloadInput::Saved,
        ).after(ReloadInput::Unloaded).after(ReloadInput::LoadFailed)
    }

    /// The world after one tick in which the artifact, last modified at
    /// `modified`, is loaded as the module `handle`, which registers
    /// `contents`.
    pub open spec fn swapped(self, now: u64, modified: u64, handle: u64, contents: ContentsView) -> WorldView {
        self.after(ReloadInput::Tick { now }).after(ReloadInput::Artifact { modified: Some(modified) }).after(
            ReloadInput::Saved,
        ).after(ReloadInput::Unloaded).after(ReloadInput::Loaded { handle }).report(
            ReloadInput::Registered,
            contents,
        ).0.after(ReloadInput::Restored).after(ReloadInput::Notified)
    }

    /// Whatever the host reports, the world stays valid.
    pub proof fn lemma_report_valid(self, input: ReloadInput, contents: ContentsView)
        requires
            self.valid(),
        ensures
            self.report(input, contents).0.valid(),
    {
        self.schedules.lemma_register_well_linked(contents.schedules);
    }

    /// An artifact that cannot be loaded leaves everything as it was:
    /// the module that was loaded before is still the current one, the
    /// pipelines hold what they held, and nothing stays saved.
    pub proof fn lemma_load_failure_changes_nothing(self, now: u64, modified: u64)
        requires
            self.valid(),
            self.cycle.phase is Idle,
            self.cycle.is_newer(Some(modified)),
            self.cycle.last_update_time matches Some(last) ==> now >= last && now - last >= self.cycle.debounce,
        ensures
            self.load_failed(now, modified).cycle.phase is Idle,
            self.load_failed(now, modified).cycle.library == self.cycle.library,
            self.load_failed(now, modified).cycle.generation == self.cycle.generation,
            self.load_failed(now, modified).schedules == self.schedules,
            self.load_failed(now, modified).contributed == self.contributed,
            self.load_failed(now, modified).forwarded == self.forwarded,
            self.load_failed(now, modified).resources == self.resources,
            self.load_failed(now, modified).components == self.components,
    {
    }

    /// A swap that succeeds replaces what the module before
    /// contributed: every pipeline that the new module contributes
    /// holds exactly its tasks, every pipeline that only the module
    /// before had contributed is empty, and nothing stays saved.
    pub proof fn lemma_swap_replaces_contributions(
        self,
        now: u64,
        modified: u64,
        handle: u64,
        contents: ContentsView,
    )
        requires
            self.valid(),
            self.cycle.phase is Idle,
            self.cycle.is_newer(Some(modified)),
            self.cycle.last_update_time matches Some(last) ==> now >= last && now - last >= self.cycle.debounce,
        ensures
            self.swapped(now, modified, handle, contents).valid(),
            self.swapped(now, modified, handle, contents).cycle.phase is Idle,
            self.swapped(now, modified, handle, contents).schedules == self.schedules.reloaded(
                self.contributed,
                contents.schedules,
            ),
            self.swapped(now, modified, handle, contents).contributed == contents.schedules.dom(),
            self.swapped(now, modified, handle, contents).forwarded == self.schedules.first_contributions(
                contents.schedules,
            ),
            self.swapped(now, modified, handle, contents).resources == Map::<Seq<char>, Seq<u8>>::empty(),
            self.swapped(now, modified, handle, contents).components == Map::<
                Seq<char>,
                Seq<(u64, Seq<u8>)>,
            >::empty(),
    {
        self.schedules.clear(self.contributed).lemma_register_well_linked(contents.schedules);
    }
}

/// The coordinator, the host's pipelines and the saved state.
pub struct ReloadableWorld {
    internal: InternalHotReload,
    hot_reload: HotReload,
    schedules: Schedules,
    cleanup: ReloadableAppCleanup,
    resources: ReloadableResourceStore,
    components: ReloadableComponentStore,
}

impl View for ReloadableWorld {
    type V = WorldView;

    closed spec fn view(&self) -> WorldView {
        WorldView {
            cycle: self.internal@,
            schedules: self.schedules@,
            contributed: self.cleanup@,
            forwarded: self.cleanup.forwarded(),
            resources: self.resources@,
            components: self.components@,
        }
    }
}

impl ReloadableWorld {
    /// The parts are well formed and the world is valid.
    pub closed spec fn wf(&self) -> bool {
        &&& self.internal.wf()
        &&& self.schedules.wf()
        &&& self.cleanup.wf()
        &&& self.resources.wf()
        &&& self.components.wf()
        &&& self@.valid()
        &&& self.hot_reload.last_updated_frame == self@.cycle.last_updated_frame
        &&& self.hot_reload.version == self@.cycle.generation
        &&& self.hot_reload.updated_this_frame == self@.cycle.updated_this_frame
    }

    /// The paths that the world was made with.
    pub closed spec fn paths(&self) -> LibPathSet {
        self.internal.paths()
    }

    /// What holds of every world that the cycle can reach.
    pub proof fn lemma_valid(&self)
        requires
            self.wf(),
        ensures
            self@.valid(),
    {
    }

    /// A world at rest, with no module, no pipelines and nothing saved,
    /// that lets `debounce` milliseconds pass between a swap and the next.
    pub fn new(libs: LibPathSet, debounce: u64) -> (world: Self)
        ensures
            world.wf(),
            world@ == WorldView::initial(debounce),
            world.paths() == libs,
    {
        ReloadableWorld {
            internal: InternalHotReload::new(libs, debounce),
            hot_reload: HotReload::default(),
            schedules: Schedules::new(),
            cleanup: ReloadableAppCleanup::default(),
            resources: ReloadableResourceStore::default(),
            components: ReloadableComponentStore::default(),
        }
    }

    /// The coordinator of the reload cycle.
    pub fn internal(&self) -> (internal: &InternalHotReload)
        requires
            self.wf(),
        ensures
            internal.wf(),
            internal@ == self@.cycle,
            internal.paths() == self.paths(),
    {
        &self.internal
    }

    /// What the application may read about reloads.
    pub fn hot_reload(&self) -> (status: &HotReload)
        requires
            self.wf(),
        ensures
            status.last_updated_frame == self@.cycle.last_updated_frame,
            status.version == self@.cycle.generation,
            status.updated_this_frame == self@.cycle.updated_this_frame,
    {
        &self.hot_reload
    }

    /// The host's pipelines.
    pub fn schedules(&self) -> (schedules: &Schedules)
        requires
            self.wf(),
        ensures
            schedules.wf(),
            schedules@ == self@.schedules,
    {
        &self.schedules
    }

    /// The names under which the loaded module contributed pipelines.
    pub fn contributed(&self) -> (contributed: &ReloadableAppCleanup)
        requires
            self.wf(),
        ensures
            contributed.wf(),
            contributed@ == self@.contributed,
            contributed.forwarded() == self@.forwarded,
    {
        &self.cleanup
    }

    /// The saved singleton values.
    pub fn resources(&self) -> (resources: &ReloadableResourceStore)
        requires
            self.wf(),
        ensures
            resources.wf(),
            resources@ == self@.resources,
    {
        &self.resources
    }

    /// The saved per-instance values.
    pub fn components(&self) -> (components: &ReloadableComponentStore)
        requires
            self.wf(),
        ensures
            components.wf(),
            components@ == self@.components,
    {
        &self.components
    }

    /// Adds tasks of the host's own at the end of the permanent
    /// pipeline `label`, which is made if it is not there yet.
    pub fn add_systems<L: ScheduleLabel>(&mut self, label: L, systems: Vec<u64>)
        requires
            old(self).wf(),
        ensures
            final(self).wf(),
            final(self).paths() == old(self).paths(),
            final(self)@ == (WorldView {
                schedules: old(self)@.schedules.add_systems(label.label(), systems@),
                ..old(self)@
            }),
    {
        self.schedules.add_systems(label, systems);
        proof {
            self.schedules.lemma_well_linked();
        }
    }

    /// Takes a report of the host that brings nothing with it, does
    /// what it means for the pipelines and the saved state, and says
    /// what the host is to do next.
    pub fn report(&mut self, input: ReloadInput) -> (action: ReloadAction)
        requires
            old(self).wf(),
        ensures
            final(self).wf(),
            final(self).paths() == old(self).paths(),
            (final(self)@, action) == old(self)@.report(input, ContentsView::empty()),
    {
        self.advance(input, ReloadableAppContents::default())
    }

    /// Takes the report that the module has registered `contents`,
    /// installs what it contributed in place of what the module before
    /// it had contributed, and says what the host is to do next.
    pub fn registered(&mut self, contents: ReloadableAppContents) -> (action: ReloadAction)
        requires
            old(self).wf(),
            contents.wf(),
        ensures
            final(self).wf(),
            final(self).paths() == old(self).paths(),
            (final(self)@, action) == old(self)@.report(ReloadInput::Registered, contents@),
    {
        self.advance(ReloadInput::Registered, contents)
    }

    fn advance(&mut self, input: ReloadInput, contents: ReloadableAppContents) -> (action: ReloadAction)
        requires
            old(self).wf(),
            contents.wf(),
        ensures
            final(self).wf(),
            final(self).paths() == old(self).paths(),
            (final(self)@, action) == old(self)@.report(input, contents@),
    {
        proof {
            old(self)@.lemma_report_valid(input, contents@);
        }
        let action = reload(&mut self.internal, &mut self.hot_reload, input);
        match action {
            ReloadAction::Load { .. } => {
                let _fresh = cleanup(&mut self.schedules, &self.cleanup);
            },
            ReloadAction::Abort { .. } => {
                self.schedules.reinstate();
                self.resources.clear();
                self.components.clear();
            },
            ReloadAction::RestoreAll { .. } => {
                self.cleanup = register_schedules(contents, &mut self.schedules);
            },
            ReloadAction::Notify { .. } => {
                self.resources.clear();
                self.components.clear();
            },
            _ => {},
        }
        action
    }

    /// Saves the singleton value `resource` while state is being
    /// saved; at any other time nothing is saved.
    pub fn save_resource<R: ReloadableResource>(&mut self, resource: Option<&R>)
        requires
            old(self).wf(),
        ensures
            final(self).wf(),
            final(self).paths() == old(self).paths(),
            !(old(self)@.cycle.phase is Serializing) || resource is None ==> final(self)@ == old(self)@,
            old(self)@.cycle.phase is Serializing && resource is Some ==> exists|
                name: &'static str,
                encoded: Option<Vec<u8>>,
            |
                #![trigger call_ensures(R::get_type_name, (), name), call_ensures(R::serialize, (resource->0,), encoded)]
                call_ensures(R::get_type_name, (), name) && call_ensures(R::serialize, (resource->0,), encoded)
                    && final(self)@ == (WorldView {
                    resources: recorded(old(self)@.resources, name@, bytes_of(encoded)),
                    ..old(self)@
                }),
    {
        match self.internal.phase() {
            ReloadPhase::Serializing => {
                serialize_reloadable_resource(&mut self.resources, resource);
            },
            _ => {},
        }
    }

    /// Saves the values of type `C` that the instances in `instances`
    /// hold while state is being saved; at any other time nothing is saved.
    pub fn save_components<C: ReloadableComponent>(&mut self, instances: &Vec<(u64, C)>)
        requires
            old(self).wf(),
        ensures
            final(self).wf(),
            final(self).paths() == old(self).paths(),
            !(old(self)@.cycle.phase is Serializing) ==> final(self)@ == old(self)@,
            old(self)@.cycle.phase is Serializing ==> exists|name: &'static str, encoded: Seq<Option<Vec<u8>>>|
                #![trigger call_ensures(C::get_type_name, (), name), encoded.len()]
                call_ensures(C::get_type_name, (), name) && encoded.len() == instances@.len() && (forall|i: int|
                    0 <= i < instances@.len() ==> call_ensures(
                        C::serialize,
                        (&instances@[i].1,),
                        #[trigger] encoded[i],
                    )) && final(self)@ == (WorldView {
                    components: recorded_instances(
                        old(self)@.components,
                        name@,
                        Seq::new(instances@.len(), |i: int| instances@[i].0),
                        Seq::new(instances@.len(), |i: int| bytes_of(encoded[i])),
                    ),
                    ..old(self)@
                }),
    {
        match self.internal.phase() {
            ReloadPhase::Serializing => {
                serialize_reloadable_component(&mut self.components, instances);
            },
            _ => {},
        }
    }

    /// Restores the singleton value of type `R` from what is saved, or
    /// as the default of `R` where nothing is saved for it or the bytes
    /// cannot be read.
    pub fn restore_resource<R: ReloadableResource>(&self) -> (value: R)
        requires
            self.wf(),
        ensures
            exists|name: &'static str| #[trigger]
                call_ensures(R::get_type_name, (), name) && restores_resource(
                    snapshot_of(self@.resources, name@),
                    value,
                ),
    {
        deserialize_reloadable_resource(&self.resources)
    }

    /// Restores the values of type `C` for the instances among `live`
    /// and takes them out of what is saved.
    pub fn restore_components<C: ReloadableComponent>(&mut self, live: &Vec<u64>) -> (restored: Vec<(u64, C)>)
        requires
            old(self).wf(),
        ensures
            final(self).wf(),
            final(self).paths() == old(self).paths(),
            exists|name: &'static str| #[trigger]
                call_ensures(C::get_type_name, (), name) && final(self)@ == (WorldView {
                    components: old(self)@.components.remove(name@),
                    ..old(self)@
                }) && reattaches(instances_of(old(self)@.components, name@), live@, restored@),
    {
        let restored = deserialize_reloadable_component(&mut self.components, live);
        proof {
            let name = choose|name: &'static str| #[trigger]
                call_ensures(C::get_type_name, (), name) && self.components@ == old(self).components@.remove(
                    name@,
                ) && reattaches(instances_of(old(self).components@, name@), live@, restored@);
            if !old(self)@.holds_state() {
                assert(self@.components =~= old(self)@.components);
            }
        }
        restored
    }
}

impl HotReloadPlugin {
    /// Makes the world that the plugin's paths describe, with the five
    /// permanent pipelines that every reload cycle runs.
    pub fn build(&self, debounce: u64) -> (world: ReloadableWorld)
        ensures
            world.wf(),
            world.paths() == self.paths(),
            world@ == (WorldView {
                schedules: SchedulesView::empty().add_systems("SetupReload"@, Seq::empty()).add_systems(
                    "CleanupReloaded"@,
                    Seq::empty(),
                ).add_systems("SerializeReloadables"@, Seq::empty()).add_systems(
                    "DeserializeReloadables"@,
                    Seq::empty(),
                ).add_systems("OnReloadComplete"@, Seq::empty()),
                ..WorldView::initial(debounce)
            }),
    {
        let mut world = ReloadableWorld::new(self.libs().duplicate(), debounce);
        world.add_systems(SetupReload, Vec::new());
        world.add_systems(CleanupReloaded, Vec::new());
        world.add_systems(SerializeReloadables, Vec::new());
        world.add_systems(DeserializeReloadables, Vec::new());
        world.add_systems(OnReloadComplete, Vec::new());
        world
    }
}

} // verus!
