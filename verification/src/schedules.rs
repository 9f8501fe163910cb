//! The host's pipelines, and how the contributions of a module enter
//! and leave them.
//!
//! The host runs its own, permanent pipelines. What a module
//! contributes to the pipeline `label` is kept apart, in a pipeline of
//! its own; one forwarding task in the permanent pipeline runs it. So
//! the permanent pipelines never change when a module is replaced.

use vstd::prelude::*;
use vstd::string::StringExecFns;
use crate::contents::{pipeline_of, pipelines, ContentsView, ReloadableAppContents};
use crate::labels::ScheduleLabel;
use crate::names::{NameMap, NameSet};

verus! {

/// A task of a permanent pipeline.
#[derive(Clone, Copy, Debug, PartialEq, Eq)]
pub enum RootTask {
    /// A task of the host's own, known by its number.
    System(u64),
    /// Runs the tasks that the loaded module contributed to this pipeline.
    Forward,
}

/// How many forwarding tasks a permanent pipeline holds.
pub open spec fn forwards(tasks: Seq<RootTask>) -> nat
    decreases tasks.len(),
{
    if tasks.len() == 0 {
        0
    } else {
        forwards(tasks.drop_last()) + (if tasks.last() is Forward {
            1nat
        } else {
            0nat
        })
    }
}

/// The host's own tasks `systems`, as tasks of a permanent pipeline.
pub open spec fn as_root_tasks(systems: Seq<u64>) -> Seq<RootTask> {
    Seq::new(systems.len(), |i: int| RootTask::System(systems[i]))
}

/// The order in which tasks run when the host runs a permanent
/// pipeline: its own tasks where they stand, and the module's tasks
/// `inner` where a forwarding task stands.
pub open spec fn flatten(tasks: Seq<RootTask>, inner: Seq<u64>) -> Seq<u64>
    decreases tasks.len(),
{
    if tasks.len() == 0 {
        Seq::empty()
    } else {
        flatten(tasks.drop_last(), inner) + (match tasks.last() {
            RootTask::System(task) => seq![task],
            RootTask::Forward => inner,
        })
    }
}

/// The permanent pipelines that a map of task lists holds.
pub open spec fn root_pipelines(roots: Map<Seq<char>, Vec<RootTask>>) -> Map<Seq<char>, Seq<RootTask>> {
    Map::new(|label: Seq<char>| roots.dom().contains(label), |label: Seq<char>| roots[label]@)
}

/// What a [`Schedules`] holds.
#[verifier::ext_equal]
pub struct SchedulesView {
    /// The host's permanent pipelines.
    pub roots: Map<Seq<char>, Seq<RootTask>>,
    /// What the loaded module contributed, by the name of the permanent
    /// pipeline that forwards to it.
    pub reloadable: Map<Seq<char>, Seq<u64>>,
    /// What the module that is leaving had contributed, kept until the
    /// next module has taken over.
    pub retired: Map<Seq<char>, Seq<u64>>,
}

impl SchedulesView {
    pub open spec fn empty() -> SchedulesView {
        SchedulesView { roots: Map::empty(), reloadable: Map::empty(), retired: Map::empty() }
    }

    /// The tasks of the permanent pipeline `label`; none if the host has
    /// no such pipeline.
    pub open spec fn root_of(self, label: Seq<char>) -> Seq<RootTask> {
        if self.roots.dom().contains(label) {
            self.roots[label]
        } else {
            Seq::empty()
        }
    }

    /// A permanent pipeline forwards exactly once if a module ever
    /// contributed to it, and never otherwise; what is retired was
    /// contributed.
    pub open spec fn well_linked(self) -> bool {
        &&& forall|label: Seq<char>| #[trigger]
            self.reloadable.dom().contains(label) ==> self.roots.dom().contains(label) && forwards(
                self.roots[label],
            ) == 1
        &&& forall|label: Seq<char>| #[trigger]
            self.roots.dom().contains(label) && !self.reloadable.dom().contains(label) ==> forwards(
                self.roots[label],
            ) == 0
        &&& forall|label: Seq<char>| #[trigger]
            self.retired.dom().contains(label) ==> self.reloadable.dom().contains(label)
    }

    /// The host adds tasks of its own to the permanent pipeline `label`.
    pub open spec fn add_systems(self, label: Seq<char>, systems: Seq<u64>) -> SchedulesView {
        SchedulesView { roots: self.roots.insert(label, self.root_of(label) + as_root_tasks(systems)), ..self }
    }

    /// One contributed pipeline takes the place of what was contributed
    /// to `label` before. The first contribution to a label puts the
    /// forwarding task into the permanent pipeline.
    pub open spec fn install(self, label: Seq<char>, systems: Seq<u64>) -> SchedulesView {
        SchedulesView {
            roots: if self.reloadable.dom().contains(label) {
                self.roots
            } else {
                self.roots.insert(label, self.root_of(label).push(RootTask::Forward))
            },
            reloadable: self.reloadable.insert(label, systems),
            retired: self.retired,
        }
    }

    /// The names among those of `contributed` under which no module
    /// has contributed before.
    pub open spec fn first_contributions(self, contributed: Map<Seq<char>, Seq<u64>>) -> Set<Seq<char>> {
        Set::new(
            |label: Seq<char>| contributed.dom().contains(label) && !self.reloadable.dom().contains(label),
        )
    }

    /// All of a module's contributions are installed, and what was
    /// retired is let go.
    pub open spec fn register(self, contributed: Map<Seq<char>, Seq<u64>>) -> SchedulesView {
        SchedulesView {
            roots: Map::new(
                |label: Seq<char>| self.roots.dom().contains(label) || contributed.dom().contains(label),
                |label: Seq<char>|
                    if contributed.dom().contains(label) && !self.reloadable.dom().contains(label) {
                        self.root_of(label).push(RootTask::Forward)
                    } else {
                        self.roots[label]
                    },
            ),
            reloadable: Map::new(
                |label: Seq<char>| self.reloadable.dom().contains(label) || contributed.dom().contains(label),
                |label: Seq<char>|
                    if contributed.dom().contains(label) {
                        contributed[label]
                    } else {
                        self.reloadable[label]
                    },
            ),
            retired: Map::empty(),
        }
    }

    /// Every contributed pipeline named in `labels` is emptied and its
    /// tasks are retired. What was retired already stays retired.
    pub open spec fn clear(self, labels: Set<Seq<char>>) -> SchedulesView {
        SchedulesView {
            roots: self.roots,
            reloadable: Map::new(
                |label: Seq<char>| self.reloadable.dom().contains(label),
                |label: Seq<char>|
                    if labels.contains(label) {
                        Seq::empty()
                    } else {
                        self.reloadable[label]
                    },
            ),
            retired: Map::new(
                |label: Seq<char>|
                    self.retired.dom().contains(label) || (labels.contains(label)
                        && self.reloadable.dom().contains(label)),
                |label: Seq<char>|
                    if self.retired.dom().contains(label) {
                        self.retired[label]
                    } else {
                        self.reloadable[label]
                    },
            ),
        }
    }

    /// What was retired is contributed again.
    pub open spec fn reinstate(self) -> SchedulesView {
        SchedulesView {
            roots: self.roots,
            reloadable: Map::new(
                |label: Seq<char>| self.reloadable.dom().contains(label),
                |label: Seq<char>|
                    if self.retired.dom().contains(label) {
                        self.retired[label]
                    } else {
                        self.reloadable[label]
                    },
            ),
            retired: Map::empty(),
        }
    }

    /// The tasks that run, in order, when the host runs the permanent
    /// pipeline `label`.
    pub open spec fn run_order(self, label: Seq<char>) -> Seq<u64> {
        flatten(self.root_of(label), pipeline_of(self.reloadable, label))
    }
}

/// Adding a task at the end adds it to the count if it forwards.
pub proof fn lemma_forwards_push(tasks: Seq<RootTask>, task: RootTask)
    ensures
        forwards(tasks.push(task)) == forwards(tasks) + (if task is Forward {
            1nat
        } else {
            0nat
        }),
{
    assert(tasks.push(task).drop_last() =~= tasks);
}

/// What one more task adds to the order in which tasks run.
pub proof fn lemma_flatten_push(tasks: Seq<RootTask>, task: RootTask, inner: Seq<u64>)
    ensures
        flatten(tasks.push(task), inner) == flatten(tasks, inner) + (match task {
            RootTask::System(t) => seq![t],
            RootTask::Forward => inner,
        }),
{
    assert(tasks.push(task).drop_last() =~= tasks);
}

/// Tasks of the host's own do not forward.
pub proof fn lemma_forwards_of_systems(tasks: Seq<RootTask>, systems: Seq<u64>)
    ensures
        forwards(tasks + as_root_tasks(systems)) == forwards(tasks),
    decreases systems.len(),
{
    if systems.len() > 0 {
        lemma_forwards_of_systems(tasks, systems.drop_last());
        assert((tasks + as_root_tasks(systems)).drop_last() =~= tasks + as_root_tasks(systems.drop_last()));
    }
}

/// How many tasks run when a permanent pipeline runs: its own, and the
/// module's where it forwards.
pub proof fn lemma_flatten_len(tasks: Seq<RootTask>, inner: Seq<u64>)
    ensures
        forwards(tasks) == 0 ==> flatten(tasks, inner).len() == tasks.len(),
        forwards(tasks) == 1 ==> flatten(tasks, inner).len() == tasks.len() - 1 + inner.len(),
    decreases tasks.len(),
{
    if tasks.len() > 0 {
        lemma_flatten_len(tasks.drop_last(), inner);
    }
}

impl SchedulesView {
    /// One reload: what the leaving module contributed under `leaving`
    /// is cleared, then what the arriving module contributes is installed.
    pub open spec fn reloaded(self, leaving: Set<Seq<char>>, arriving: Map<Seq<char>, Seq<u64>>) -> SchedulesView {
        self.clear(leaving).register(arriving)
    }

    /// The pipelines after one reload for each element of
    /// `generations`: each module contributes what its element says,
    /// and leaves when the next one arrives. The module that leaves
    /// first contributed under `leaving`.
    pub open spec fn after_reloads(
        self,
        leaving: Set<Seq<char>>,
        generations: Seq<Map<Seq<char>, Seq<u64>>>,
    ) -> SchedulesView
        decreases generations.len(),
    {
        if generations.len() == 0 {
            self
        } else {
            let before = self.after_reloads(leaving, generations.drop_last());
            let left = if generations.len() == 1 {
                leaving
            } else {
                generations[generations.len() - 2].dom()
            };
            before.reloaded(left, generations.last())
        }
    }

    /// Adding tasks of the host's own keeps the pipelines well linked.
    pub proof fn lemma_add_systems_well_linked(self, label: Seq<char>, systems: Seq<u64>)
        requires
            self.well_linked(),
        ensures
            self.add_systems(label, systems).well_linked(),
    {
        lemma_forwards_of_systems(self.root_of(label), systems);
    }

    /// Clearing keeps the pipelines well linked.
    pub proof fn lemma_clear_well_linked(self, labels: Set<Seq<char>>)
        requires
            self.well_linked(),
        ensures
            self.clear(labels).well_linked(),
    {
    }

    /// Registering keeps the pipelines well linked: a permanent
    /// pipeline gets its forwarding task with the first contribution
    /// and none after that.
    pub proof fn lemma_register_well_linked(self, contributed: Map<Seq<char>, Seq<u64>>)
        requires
            self.well_linked(),
        ensures
            self.register(contributed).well_linked(),
    {
        let after = self.register(contributed);
        assert forall|label: Seq<char>| #[trigger] after.reloadable.dom().contains(label) implies after.roots.dom().contains(
            label,
        ) && forwards(after.roots[label]) == 1 by {
            lemma_forwards_push(self.root_of(label), RootTask::Forward);
        }
    }

    /// Contributing again what was retired keeps the pipelines well linked.
    pub proof fn lemma_reinstate_well_linked(self)
        requires
            self.well_linked(),
        ensures
            self.reinstate().well_linked(),
    {
    }

    /// Where nothing was retired before, contributing again what a
    /// clearing retired gives back the pipelines as they were before
    /// the clearing.
    pub proof fn lemma_reinstate_undoes_clear(self, labels: Set<Seq<char>>)
        requires
            self.well_linked(),
            self.retired == Map::<Seq<char>, Seq<u64>>::empty(),
        ensures
            self.clear(labels).reinstate() == self,
    {
        let back = self.clear(labels).reinstate();
    }

    /// After one reload every pipeline that the arriving module
    /// contributed holds exactly what it contributed, every pipeline
    /// that only the leaving module had contributed is empty, and what
    /// neither of them contributed is as it was.
    pub proof fn lemma_reload_replaces(self, leaving: Set<Seq<char>>, arriving: Map<Seq<char>, Seq<u64>>)
        ensures
            forall|label: Seq<char>| #[trigger]
                arriving.dom().contains(label) ==> self.reloaded(leaving, arriving).reloadable.dom().contains(
                    label,
                ) && self.reloaded(leaving, arriving).reloadable[label] == arriving[label],
            forall|label: Seq<char>|
                leaving.contains(label) && !arriving.dom().contains(label)
                    && #[trigger] self.reloadable.dom().contains(label) ==> self.reloaded(
                    leaving,
                    arriving,
                ).reloadable[label] == Seq::<u64>::empty(),
            forall|label: Seq<char>|
                !leaving.contains(label) && !arriving.dom().contains(label)
                    && #[trigger] self.reloadable.dom().contains(label) ==> self.reloaded(
                    leaving,
                    arriving,
                ).reloadable[label] == self.reloadable[label],
    {
    }

    /// Contributions do not pile up. After any number of reloads, at
    /// least one, in each of which the arriving module contributes to
    /// the pipeline `label`, that pipeline holds what the last module
    /// contributed and nothing of the modules before it, and the
    /// permanent pipeline forwards to it exactly once.
    pub proof fn lemma_no_pipeline_leakage(
        self,
        leaving: Set<Seq<char>>,
        generations: Seq<Map<Seq<char>, Seq<u64>>>,
        label: Seq<char>,
    )
        requires
            self.well_linked(),
            generations.len() > 0,
            forall|i: int| 0 <= i < generations.len() ==> (#[trigger] generations[i]).dom().contains(label),
        ensures
            self.after_reloads(leaving, generations).well_linked(),
            self.after_reloads(leaving, generations).reloadable.dom().contains(label),
            self.after_reloads(leaving, generations).reloadable[label] == generations.last()[label],
            self.after_reloads(leaving, generations).roots.dom().contains(label),
            forwards(self.after_reloads(leaving, generations).roots[label]) == 1,
            self.after_reloads(leaving, generations).run_order(label).len() == self.after_reloads(
                leaving,
                generations,
            ).roots[label].len() - 1 + generations.last()[label].len(),
        decreases generations.len(),
    {
        let before = self.after_reloads(leaving, generations.drop_last());
        let left = if generations.len() == 1 {
            leaving
        } else {
            generations[generations.len() - 2].dom()
        };
        if generations.len() > 1 {
            self.lemma_no_pipeline_leakage(leaving, generations.drop_last(), label);
        }
        before.clear(left).lemma_register_well_linked(generations.last());
        let after = self.after_reloads(leaving, generations);
        lemma_flatten_len(after.roots[label], generations.last()[label]);
    }
}

/// What a list of strings says, string by string.
pub open spec fn names_of(labels: Seq<String>) -> Seq<Seq<char>> {
    Seq::new(labels.len(), |i: int| labels[i]@)
}

/// The names that the loaded module contributed pipelines under, and
/// which of them no module had contributed under before.
pub struct ReloadableAppCleanup {
    labels: NameSet,
    fresh: NameSet,
}

impl View for ReloadableAppCleanup {
    type V = Set<Seq<char>>;

    closed spec fn view(&self) -> Set<Seq<char>> {
        self.labels@
    }
}

impl Default for ReloadableAppCleanup {
    fn default() -> (cleanup: Self)
        ensures
            cleanup.wf(),
            cleanup@ == Set::<Seq<char>>::empty(),
            cleanup.forwarded() == Set::<Seq<char>>::empty(),
    {
        ReloadableAppCleanup { labels: NameSet::new(), fresh: NameSet::new() }
    }
}

impl ReloadableAppCleanup {
    pub closed spec fn wf(&self) -> bool {
        &&& self.labels.wf()
        &&& self.fresh.wf()
    }

    /// The names under which this module was the first to contribute:
    /// the permanent pipelines of these names got their forwarding task
    /// when the module registered.
    pub closed spec fn forwarded(&self) -> Set<Seq<char>> {
        self.fresh@
    }

    /// Whether the permanent pipeline `label` got its forwarding task
    /// when the module registered.
    pub fn forwards_anew<L: ScheduleLabel>(&self, label: L) -> (anew: bool)
        requires
            self.wf(),
        ensures
            anew == self.forwarded().contains(label.label()),
    {
        let name = label.name();
        self.fresh.contains(name.as_str())
    }

    /// Whether the module contributed a pipeline under `label`.
    pub fn contains<L: ScheduleLabel>(&self, label: L) -> (found: bool)
        requires
            self.wf(),
        ensures
            found == self@.contains(label.label()),
    {
        let name = label.name();
        self.labels.contains(name.as_str())
    }

    /// The names under which the module contributed pipelines, each once.
    pub fn labels(&self) -> (labels: Vec<String>)
        requires
            self.wf(),
        ensures
            names_of(labels@).no_duplicates(),
            names_of(labels@).to_set() == self@,
    {
        let mut labels: Vec<String> = Vec::new();
        let mut i: usize = 0;
        while i < self.labels.len()
            invariant
                i <= self.labels.names().len(),
                names_of(labels@) == self.labels.names().take(i as int),
            decreases self.labels.names().len() - i,
        {
            labels.push(self.labels.name_at(i).clone());
            assert(names_of(labels@) =~= self.labels.names().take(i as int).push(self.labels.names()[i as int]));
            i += 1;
        }
        proof {
            assert(self.labels.names().take(i as int) =~= self.labels.names());
            self.labels.lemma_names();
        }
        labels
    }

    /// Under how many names the module contributed pipelines.
    pub fn len(&self) -> (n: usize)
        requires
            self.wf(),
        ensures
            n == self@.len(),
            self@.finite(),
    {
        proof {
            self.labels.lemma_names();
            self.labels.names().unique_seq_to_set();
            assert(self.labels.names().to_set() =~= self@);
        }
        self.labels.len()
    }
}

/// The host's pipelines.
pub struct Schedules {
    roots: NameMap<Vec<RootTask>>,
    reloadable: NameMap<Vec<u64>>,
    retired: NameMap<Vec<u64>>,
}

impl View for Schedules {
    type V = SchedulesView;

    closed spec fn view(&self) -> SchedulesView {
        SchedulesView {
            roots: root_pipelines(self.roots@),
            reloadable: pipelines(self.reloadable@),
            retired: pipelines(self.retired@),
        }
    }
}

impl Default for Schedules {
    fn default() -> (schedules: Self)
        ensures
            schedules.wf(),
            schedules@ == SchedulesView::empty(),
    {
        Schedules::new()
    }
}

impl Schedules {
    /// The three collections are well formed, and every permanent
    /// pipeline forwards as [`SchedulesView::well_linked`] says.
    pub closed spec fn wf(&self) -> bool {
        &&& self.roots.wf()
        &&& self.reloadable.wf()
        &&& self.retired.wf()
        &&& self@.well_linked()
    }

    /// What holds of the pipelines of every well-formed host.
    pub proof fn lemma_well_linked(&self)
        requires
            self.wf(),
        ensures
            self@.well_linked(),
    {
    }

    /// No pipelines at all.
    pub fn new() -> (schedules: Self)
        ensures
            schedules.wf(),
            schedules@ == SchedulesView::empty(),
    {
        let schedules = Schedules { roots: NameMap::new(), reloadable: NameMap::new(), retired: NameMap::new() };
        schedules
    }

    /// Whether the host has a permanent pipeline `label`.
    pub fn contains<L: ScheduleLabel>(&self, label: L) -> (found: bool)
        requires
            self.wf(),
        ensures
            found == self@.roots.dom().contains(label.label()),
    {
        let name = label.name();
        self.roots.contains_key(name.as_str())
    }

    /// The tasks that the loaded module contributed to `label`.
    pub fn contributed<L: ScheduleLabel>(&self, label: L) -> (systems: Vec<u64>)
        requires
            self.wf(),
        ensures
            systems@ == pipeline_of(self@.reloadable, label.label()),
    {
        let name = label.name();
        match self.reloadable.get(name.as_str()) {
            Some(pipeline) => pipeline.clone(),
            None => Vec::new(),
        }
    }

    /// The tasks of the permanent pipeline `label`.
    pub fn root<L: ScheduleLabel>(&self, label: L) -> (tasks: Vec<RootTask>)
        requires
            self.wf(),
        ensures
            tasks@ == self@.root_of(label.label()),
    {
        let name = label.name();
        let mut tasks: Vec<RootTask> = Vec::new();
        match self.roots.get(name.as_str()) {
            Some(pipeline) => {
                let mut i: usize = 0;
                while i < pipeline.len()
                    invariant
                        i <= pipeline@.len(),
                        tasks@ == pipeline@.take(i as int),
                    decreases pipeline@.len() - i,
                {
                    tasks.push(pipeline[i]);
                    i += 1;
                }
            },
            None => {},
        }
        tasks
    }

    /// Adds tasks of the host's own at the end of the permanent
    /// pipeline `label`, which is made if it is not there yet.
    pub fn add_systems<L: ScheduleLabel>(&mut self, label: L, systems: Vec<u64>)
        requires
            old(self).wf(),
        ensures
            final(self).wf(),
            final(self)@ == old(self)@.add_systems(label.label(), systems@),
    {
        let name = label.name();
        let mut root = match self.roots.remove(name.as_str()) {
            Some(root) => root,
            None => Vec::new(),
        };
        let ghost before = root@;
        let mut i: usize = 0;
        while i < systems.len()
            invariant
                i <= systems@.len(),
                root@ == before + as_root_tasks(systems@.take(i as int)),
                forwards(root@) == forwards(before),
            decreases systems@.len() - i,
        {
            proof {
                lemma_forwards_push(root@, RootTask::System(systems@[i as int]));
            }
            root.push(RootTask::System(systems[i]));
            i += 1;
        }
        assert(systems@.take(i as int) =~= systems@);
        self.roots.insert(name, root);
        assert(self@.roots =~= old(self)@.add_systems(label.label(), systems@).roots);
    }

    /// Installs one contributed pipeline.
    fn install(&mut self, name: String, systems: Vec<u64>)
        requires
            old(self).wf(),
        ensures
            final(self).wf(),
            final(self)@ == old(self)@.install(name@, systems@),
    {
        if !self.reloadable.contains_key(name.as_str()) {
            let mut root = match self.roots.remove(name.as_str()) {
                Some(root) => root,
                None => Vec::new(),
            };
            proof {
                lemma_forwards_push(root@, RootTask::Forward);
            }
            root.push(RootTask::Forward);
            self.roots.insert(name.clone(), root);
        }
        self.reloadable.insert(name, systems);
        assert(self@.roots =~= old(self)@.install(name@, systems@).roots);
        assert(self@.reloadable =~= old(self)@.install(name@, systems@).reloadable);
    }

    /// Empties the pipeline contributed under `name` and retires its tasks.
    fn retire(&mut self, name: &str)
        requires
            old(self).wf(),
        ensures
            final(self).wf(),
            final(self)@ == old(self)@.clear(set![name@]),
    {
        match self.reloadable.remove(name) {
            Some(tasks) => {
                self.reloadable.insert(String::from_str(name), Vec::new());
                if !self.retired.contains_key(name) {
                    self.retired.insert(String::from_str(name), tasks);
                }
            },
            None => {},
        }
        assert(self@.reloadable =~= old(self)@.clear(set![name@]).reloadable);
        assert(self@.retired =~= old(self)@.clear(set![name@]).retired);
    }

    /// Contributes again what was retired, and retires nothing any more.
    pub fn reinstate(&mut self)
        requires
            old(self).wf(),
        ensures
            final(self).wf(),
            final(self)@ == old(self)@.reinstate(),
    {
        let ghost start = self@;
        let ghost mut done: Set<Seq<char>> = Set::empty();
        while self.retired.len() > 0
            invariant
                self.wf(),
                self@.roots == start.roots,
                self@.reloadable.dom() == start.reloadable.dom(),
                forall|label: Seq<char>| #[trigger]
                    start.retired.dom().contains(label) <==> done.contains(label)
                        || self@.retired.dom().contains(label),
                forall|label: Seq<char>| #[trigger]
                    self@.retired.dom().contains(label) ==> !done.contains(label) && self@.retired[label]
                        == start.retired[label],
                forall|label: Seq<char>| #[trigger]
                    start.reloadable.dom().contains(label) ==> self@.reloadable[label] == (if done.contains(
                        label,
                    ) {
                        start.retired[label]
                    } else {
                        start.reloadable[label]
                    }),
            decreases self.retired.names().len(),
        {
            let ghost before = self@;
            match self.retired.pop() {
                Some(entry) => {
                    let (name, tasks) = entry;
                    proof {
                        done = done.insert(name@);
                        assert(before.retired.dom().contains(name@));
                    }
                    self.reloadable.insert(name, tasks);
                    assert(self@.retired =~= before.retired.remove(name@));
                    assert(self@.reloadable =~= before.reloadable.insert(name@, tasks@));
                },
                None => {},
            }
        }
        proof {
            self.retired.lemma_entries();
        }
    }

    /// The tasks that run, in order, when the host runs the permanent
    /// pipeline `label`.
    pub fn run_order<L: ScheduleLabel>(&self, label: L) -> (order: Vec<u64>)
        requires
            self.wf(),
        ensures
            order@ == self@.run_order(label.label()),
    {
        let name = label.name();
        let mut order: Vec<u64> = Vec::new();
        let root = match self.roots.get(name.as_str()) {
            Some(root) => root,
            None => {
                return order;
            },
        };
        let inner = self.reloadable.get(name.as_str());
        let ghost tasks = pipeline_of(self@.reloadable, label.label());
        let mut i: usize = 0;
        while i < root.len()
            invariant
                i <= root@.len(),
                order@ == flatten(root@.take(i as int), tasks),
                inner matches Some(pipeline) ==> pipeline@ == tasks,
                inner is None ==> tasks == Seq::<u64>::empty(),
            decreases root@.len() - i,
        {
            proof {
                lemma_flatten_push(root@.take(i as int), root@[i as int], tasks);
                assert(root@.take(i + 1) =~= root@.take(i as int).push(root@[i as int]));
            }
            match root[i] {
                RootTask::System(task) => {
                    order.push(task);
                },
                RootTask::Forward => {
                    match inner {
                        Some(pipeline) => {
                            let ghost before = order@;
                            let mut j: usize = 0;
                            while j < pipeline.len()
                                invariant
                                    j <= pipeline@.len(),
                                    order@ == before + pipeline@.take(j as int),
                                decreases pipeline@.len() - j,
                            {
                                order.push(pipeline[j]);
                                j += 1;
                            }
                        },
                        None => {
                        },
                    }
                },
            }
            i += 1;
        }
        assert(root@.take(i as int) =~= root@);
        order
    }
}

/// Moves what a module contributed into the host's pipelines, in place
/// of what was contributed before under the same names, and lets go of
/// what was retired. Gives the names under which the module contributed.
pub fn register_schedules(contents: ReloadableAppContents, schedules: &mut Schedules) -> (cleanup:
    ReloadableAppCleanup)
    requires
        contents.wf(),
        old(schedules).wf(),
    ensures
        final(schedules).wf(),
        final(schedules)@ == old(schedules)@.register(contents@.schedules),
        cleanup.wf(),
        cleanup@ == contents@.schedules.dom(),
        cleanup.forwarded() == old(schedules)@.first_contributions(contents@.schedules),
{
    let ghost start = schedules@;
    let ghost all = contents@.schedules;
    let mut pending = contents.schedule_iter();
    let mut labels = NameSet::new();
    let mut fresh = NameSet::new();
    schedules.retired = NameMap::new();
    let ghost mut done: Map<Seq<char>, Seq<u64>> = Map::empty();
    proof {
        assert(schedules@.roots =~= start.register(done).roots);
    }
    while pending.len() > 0
        invariant
            schedules.wf(),
            pending.wf(),
            labels.wf(),
            labels@ == done.dom(),
            fresh.wf(),
            fresh@ == start.first_contributions(done),
            schedules@ == start.register(done),
            forall|label: Seq<char>| #[trigger]
                all.dom().contains(label) <==> done.dom().contains(label) || pending@.dom().contains(label),
            forall|label: Seq<char>| #[trigger]
                done.dom().contains(label) ==> !pending@.dom().contains(label) && done[label] == all[label],
            forall|label: Seq<char>| #[trigger]
                pending@.dom().contains(label) ==> pending@[label]@ == all[label],
        decreases pending.names().len(),
    {
        match pending.pop() {
            Some(entry) => {
                let (name, systems) = entry;
                proof {
                    done = done.insert(name@, systems@);
                }
                labels.insert(name.clone());
                if !schedules.reloadable.contains_key(name.as_str()) {
                    fresh.insert(name.clone());
                }
                schedules.install(name, systems);
                proof {
                    let target = start.register(done);
                }
            },
            None => {},
        }
    }
    proof {
        pending.lemma_entries();
    }
    ReloadableAppCleanup { labels, fresh }
}

/// Empties every pipeline that the leaving module contributed, retires
/// its tasks, and gives the empty contents into which the next module
/// registers.
pub fn cleanup(schedules: &mut Schedules, reloadable: &ReloadableAppCleanup) -> (contents:
    ReloadableAppContents)
    requires
        old(schedules).wf(),
        reloadable.wf(),
    ensures
        final(schedules).wf(),
        final(schedules)@ == old(schedules)@.clear(reloadable@),
        contents.wf(),
        contents@ == ContentsView::empty(),
{
    let ghost start = schedules@;
    let ghost names = reloadable.labels.names();
    let mut i: usize = 0;
    proof {
        let none = Set::new(|label: Seq<char>| exists|j: int| 0 <= j < 0 && names[j] == label);
    }
    while i < reloadable.labels.len()
        invariant
            schedules.wf(),
            reloadable.wf(),
            names == reloadable.labels.names(),
            i <= names.len(),
            schedules@ == start.clear(Set::new(|label: Seq<char>| exists|j: int| 0 <= j < i && names[j] == label)),
        decreases names.len() - i,
    {
        let name = reloadable.labels.name_at(i);
        schedules.retire(name.as_str());
        i += 1;
    }
    proof {
        reloadable.labels.lemma_names();
        let all = Set::new(|label: Seq<char>| exists|j: int| 0 <= j < i && names[j] == label);
    }
    ReloadableAppContents::default()
}

} // verus!
