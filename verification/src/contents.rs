//! What a module contributes when it registers: tasks for named
//! pipelines, and the names of the state that is to survive a reload.

use vstd::prelude::*;
use vstd::string::StringExecFns;
use crate::labels::{CleanupReloaded, DeserializeReloadables, OnReloadComplete, ScheduleLabel, SerializeReloadables};
use crate::names::{NameMap, NameSet};
use crate::reloadable::{ReloadableComponent, ReloadableResource};

verus! {

/// The tasks of the pipeline `label`; none if there is no such pipeline.
pub open spec fn pipeline_of(schedules: Map<Seq<char>, Seq<u64>>, label: Seq<char>) -> Seq<u64> {
    if schedules.dom().contains(label) {
        schedules[label]
    } else {
        Seq::empty()
    }
}

/// The pipelines after `systems` were added at the end of pipeline `label`.
pub open spec fn extended(schedules: Map<Seq<char>, Seq<u64>>, label: Seq<char>, systems: Seq<u64>) -> Map<
    Seq<char>,
    Seq<u64>,
> {
    schedules.insert(label, pipeline_of(schedules, label) + systems)
}

/// The pipelines that a map of task lists holds.
pub open spec fn pipelines(schedules: Map<Seq<char>, Vec<u64>>) -> Map<Seq<char>, Seq<u64>> {
    Map::new(|label: Seq<char>| schedules.dom().contains(label), |label: Seq<char>| schedules[label]@)
}

/// A list of one task.
fn single(task: u64) -> (systems: Vec<u64>)
    ensures
        systems@ == seq![task],
{
    let mut systems = Vec::new();
    systems.push(task);
    systems
}

/// What a [`ReloadableAppContents`] holds.
#[verifier::ext_equal]
pub struct ContentsView {
    /// The tasks contributed to each pipeline, in the order in which they came.
    pub schedules: Map<Seq<char>, Seq<u64>>,
    /// The names of the singleton values that survive a reload.
    pub resources: Set<Seq<char>>,
    /// The names of the per-instance values that survive a reload.
    pub components: Set<Seq<char>>,
}

impl ContentsView {
    /// Nothing contributed, nothing registered.
    pub open spec fn empty() -> ContentsView {
        ContentsView { schedules: Map::empty(), resources: Set::empty(), components: Set::empty() }
    }

    pub open spec fn add_systems(self, label: Seq<char>, systems: Seq<u64>) -> ContentsView {
        ContentsView { schedules: extended(self.schedules, label, systems), ..self }
    }

    /// Registering a name a second time changes nothing.
    pub open spec fn register_resource(self, name: Seq<char>, serialize: u64, deserialize: u64) -> ContentsView {
        if self.resources.contains(name) {
            self
        } else {
            ContentsView { resources: self.resources.insert(name), ..self }.add_systems(
                "SerializeReloadables"@,
                seq![serialize],
            ).add_systems("DeserializeReloadables"@, seq![deserialize])
        }
    }

    /// Registering a name a second time changes nothing.
    pub open spec fn register_component(self, name: Seq<char>, serialize: u64, deserialize: u64) -> ContentsView {
        if self.components.contains(name) {
            self
        } else {
            ContentsView { components: self.components.insert(name), ..self }.add_systems(
                "SerializeReloadables"@,
                seq![serialize],
            ).add_systems("DeserializeReloadables"@, seq![deserialize])
        }
    }
}

/// What the module that is being registered contributes.
///
/// A task is known by a number that the host chose for it; the host
/// alone knows what the task does.
pub struct ReloadableAppContents {
    schedules: NameMap<Vec<u64>>,
    resources: NameSet,
    components: NameSet,
}

impl View for ReloadableAppContents {
    type V = ContentsView;

    closed spec fn view(&self) -> ContentsView {
        ContentsView {
            schedules: pipelines(self.schedules@),
            resources: self.resources@,
            components: self.components@,
        }
    }
}

impl Default for ReloadableAppContents {
    fn default() -> (contents: Self)
        ensures
            contents.wf(),
            contents@ == ContentsView::empty(),
    {
        let contents = ReloadableAppContents {
            schedules: NameMap::new(),
            resources: NameSet::new(),
            components: NameSet::new(),
        };
        contents
    }
}

impl ReloadableAppContents {
    /// The three collections are well formed.
    pub closed spec fn wf(&self) -> bool {
        &&& self.schedules.wf()
        &&& self.resources.wf()
        &&& self.components.wf()
    }

    /// Hands out the contributed pipelines.
    pub(crate) fn schedule_iter(self) -> (schedules: NameMap<Vec<u64>>)
        requires
            self.wf(),
        ensures
            schedules.wf(),
            pipelines(schedules@) == self@.schedules,
    {
        self.schedules
    }

    /// The tasks contributed to the pipeline `schedule` so far.
    pub fn systems<L: ScheduleLabel>(&self, schedule: L) -> (systems: Vec<u64>)
        requires
            self.wf(),
        ensures
            systems@ == pipeline_of(self@.schedules, schedule.label()),
    {
        let name = schedule.name();
        match self.schedules.get(name.as_str()) {
            Some(pipeline) => pipeline.clone(),
            None => Vec::new(),
        }
    }

    /// Whether a singleton value was registered under `name`.
    pub fn has_resource(&self, name: &str) -> (found: bool)
        requires
            self.wf(),
        ensures
            found == self@.resources.contains(name@),
    {
        self.resources.contains(name)
    }

    /// Whether a per-instance value was registered under `name`.
    pub fn has_component(&self, name: &str) -> (found: bool)
        requires
            self.wf(),
        ensures
            found == self@.components.contains(name@),
    {
        self.components.contains(name)
    }

    /// Adds `systems` at the end of the pipeline `schedule`, which is
    /// made if it is not there yet.
    pub fn add_systems<L: ScheduleLabel>(&mut self, schedule: L, systems: Vec<u64>) -> (this: &mut Self)
        requires
            old(self).wf(),
        ensures
            this.wf(),
            this@ == old(self)@.add_systems(schedule.label(), systems@),
            *final(self) == *final(this),
    {
        let name = schedule.name();
        self.add_to(name, systems);
        self
    }

    fn add_to(&mut self, name: String, systems: Vec<u64>)
        requires
            old(self).wf(),
        ensures
            final(self).wf(),
            final(self)@ == old(self)@.add_systems(name@, systems@),
    {
        let mut systems = systems;
        let mut pipeline = match self.schedules.remove(name.as_str()) {
            Some(pipeline) => pipeline,
            None => Vec::new(),
        };
        pipeline.append(&mut systems);
        self.schedules.insert(name, pipeline);
    }

    /// Registers the singleton value saved under `name`: `serialize`
    /// joins the pipeline that saves state, `deserialize` the one that
    /// restores it. A name that is registered already changes nothing.
    pub fn register_resource(&mut self, name: &str, serialize: u64, deserialize: u64) -> (this: &mut Self)
        requires
            old(self).wf(),
        ensures
            this.wf(),
            *final(self) == *final(this),
            this@ == old(self)@.register_resource(name@, serialize, deserialize),
    {
        if !self.resources.contains(name) {
            self.resources.insert(String::from_str(name));
            self.add_systems(SerializeReloadables, single(serialize));
            self.add_systems(DeserializeReloadables, single(deserialize));
        }
        self
    }

    /// Registers the per-instance value saved under `name`, as
    /// [`Self::register_resource`] does for a singleton value.
    pub fn register_component(&mut self, name: &str, serialize: u64, deserialize: u64) -> (this: &mut Self)
        requires
            old(self).wf(),
        ensures
            this.wf(),
            *final(self) == *final(this),
            this@ == old(self)@.register_component(name@, serialize, deserialize),
    {
        if !self.components.contains(name) {
            self.components.insert(String::from_str(name));
            self.add_systems(SerializeReloadables, single(serialize));
            self.add_systems(DeserializeReloadables, single(deserialize));
        }
        self
    }

    /// Registers `R` under the name that it gives itself.
    pub fn insert_reloadable_resource<R: ReloadableResource>(&mut self, serialize: u64, deserialize: u64) -> (this: &mut Self)
        requires
            old(self).wf(),
        ensures
            this.wf(),
            *final(self) == *final(this),
            exists|name: &'static str|
                call_ensures(R::get_type_name, (), name) && this@ == old(self)@.register_resource(
                    name@,
                    serialize,
                    deserialize,
                ),
    {
        let name = R::get_type_name();
        self.register_resource(name, serialize, deserialize);
        self
    }

    /// Registers `C` under the name that it gives itself.
    pub fn register_reloadable_component<C: ReloadableComponent>(&mut self, serialize: u64, deserialize: u64) -> (this: &mut Self)
        requires
            old(self).wf(),
        ensures
            this.wf(),
            *final(self) == *final(this),
            exists|name: &'static str|
                call_ensures(C::get_type_name, (), name) && this@ == old(self)@.register_component(
                    name@,
                    serialize,
                    deserialize,
                ),
    {
        let name = C::get_type_name();
        self.register_component(name, serialize, deserialize);
        self
    }

    /// Has `reset` run when state is restored: the task puts a value
    /// back to its default.
    pub fn reset_resource(&mut self, reset: u64) -> (this: &mut Self)
        requires
            old(self).wf(),
        ensures
            this.wf(),
            *final(self) == *final(this),
            this@ == old(self)@.add_systems("DeserializeReloadables"@, seq![reset]),
    {
        self.add_systems(DeserializeReloadables, single(reset));
        self
    }

    /// Has `reset` run when state is restored: the task puts a value
    /// back to one that it holds.
    pub fn reset_resource_to_value(&mut self, reset: u64) -> (this: &mut Self)
        requires
            old(self).wf(),
        ensures
            this.wf(),
            *final(self) == *final(this),
            this@ == old(self)@.add_systems("DeserializeReloadables"@, seq![reset]),
    {
        self.add_systems(DeserializeReloadables, single(reset));
        self
    }

    /// Has `clear` run when the module leaves: the task removes what
    /// the module marked as its own.
    pub fn clear_marked_on_reload(&mut self, clear: u64) -> (this: &mut Self)
        requires
            old(self).wf(),
        ensures
            this.wf(),
            *final(self) == *final(this),
            this@ == old(self)@.add_systems("CleanupReloaded"@, seq![clear]),
    {
        self.add_systems(CleanupReloaded, single(clear));
        self
    }

    /// Has `clear` run when the module leaves and `systems` once the
    /// next one is in place.
    pub fn reset_setup(&mut self, clear: u64, systems: Vec<u64>) -> (this: &mut Self)
        requires
            old(self).wf(),
        ensures
            this.wf(),
            *final(self) == *final(this),
            this@ == old(self)@.add_systems("CleanupReloaded"@, seq![clear]).add_systems(
                "OnReloadComplete"@,
                systems@,
            ),
    {
        self.add_systems(CleanupReloaded, single(clear));
        self.add_systems(OnReloadComplete, systems);
        self
    }

    /// Has `clear` run when the module leaves and when the application
    /// leaves the state whose exit pipeline is `on_exit`, and `systems`
    /// before each update; the host runs them where
    /// [`crate::coordinator::setup_is_due`] says so.
    pub fn reset_setup_in_state<L: ScheduleLabel>(&mut self, on_exit: L, clear: u64, systems: Vec<u64>) -> (this: &mut Self)
        requires
            old(self).wf(),
        ensures
            this.wf(),
            *final(self) == *final(this),
            this@ == old(self)@.add_systems("CleanupReloaded"@, seq![clear]).add_systems(
                on_exit.label(),
                seq![clear],
            ).add_systems("PreUpdate"@, systems@),
    {
        self.add_systems(CleanupReloaded, single(clear));
        self.add_systems(on_exit, single(clear));
        self.add_systems("PreUpdate", systems);
        self
    }
}

} // verus!
