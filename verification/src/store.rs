//! The state that survives a reload, as bytes.
//!
//! State is saved just before the loaded module leaves and restored as
//! soon as the next one has registered. A value that cannot be written
//! is not saved; a value that is not there, or whose bytes cannot be
//! read, comes back as its default.

use vstd::prelude::*;
use vstd::string::StringExecFns;
use crate::names::NameMap;
use crate::reloadable::{ReloadableComponent, ReloadableResource};

verus! {

/// The saved bytes that a map of byte vectors holds.
pub open spec fn snapshots(map: Map<Seq<char>, Vec<u8>>) -> Map<Seq<char>, Seq<u8>> {
    Map::new(|name: Seq<char>| map.dom().contains(name), |name: Seq<char>| map[name]@)
}

/// The saved bytes of one list of instances.
pub open spec fn instance_list(list: Seq<(u64, Vec<u8>)>) -> Seq<(u64, Seq<u8>)> {
    Seq::new(list.len(), |i: int| (list[i].0, list[i].1@))
}

/// The saved bytes that a map of lists of instances holds.
pub open spec fn instance_snapshots(map: Map<Seq<char>, Vec<(u64, Vec<u8>)>>) -> Map<
    Seq<char>,
    Seq<(u64, Seq<u8>)>,
> {
    Map::new(|name: Seq<char>| map.dom().contains(name), |name: Seq<char>| instance_list(map[name]@))
}

/// The store after an attempt to save a singleton value: bytes are
/// kept under the value's name, a failed attempt leaves the store as it was.
pub open spec fn recorded(store: Map<Seq<char>, Seq<u8>>, name: Seq<char>, encoded: Option<Seq<u8>>) -> Map<
    Seq<char>,
    Seq<u8>,
> {
    match encoded {
        Some(bytes) => store.insert(name, bytes),
        None => store,
    }
}

/// What is saved under `name`, if anything is.
pub open spec fn snapshot_of(store: Map<Seq<char>, Seq<u8>>, name: Seq<char>) -> Option<Seq<u8>> {
    if store.dom().contains(name) {
        Some(store[name])
    } else {
        None
    }
}

/// The instances saved under `name`; none if nothing is saved there.
pub open spec fn instances_of(store: Map<Seq<char>, Seq<(u64, Seq<u8>)>>, name: Seq<char>) -> Seq<
    (u64, Seq<u8>),
> {
    if store.dom().contains(name) {
        store[name]
    } else {
        Seq::empty()
    }
}

/// The store after an attempt to save the value of one instance: bytes
/// are added, with the instance's identifier, to what is saved under
/// the value's name; a failed attempt leaves the store as it was.
pub open spec fn recorded_instance(
    store: Map<Seq<char>, Seq<(u64, Seq<u8>)>>,
    name: Seq<char>,
    instance: u64,
    encoded: Option<Seq<u8>>,
) -> Map<Seq<char>, Seq<(u64, Seq<u8>)>> {
    match encoded {
        Some(bytes) => store.insert(name, instances_of(store, name).push((instance, bytes))),
        None => store,
    }
}

/// What was saved under a name is what is found under it, byte for
/// byte, and saving under one name leaves what is saved under every
/// other name alone.
pub proof fn lemma_snapshot_round_trip(
    store: Map<Seq<char>, Seq<u8>>,
    name: Seq<char>,
    bytes: Seq<u8>,
    other: Seq<char>,
)
    requires
        other != name,
    ensures
        snapshot_of(recorded(store, name, Some(bytes)), name) == Some(bytes),
        snapshot_of(recorded(store, name, Some(bytes)), other) == snapshot_of(store, other),
        recorded(store, name, None) == store,
{
}

/// The bytes of an attempt to write a value.
pub open spec fn bytes_of(encoded: Option<Vec<u8>>) -> Option<Seq<u8>> {
    match encoded {
        Some(bytes) => Some(bytes@),
        None => None,
    }
}

/// The value, if the bytes could be read, and the default if they could not.
pub fn restore_or_default<T: Default>(decoded: Option<T>) -> (value: T)
    ensures
        decoded matches Some(read) ==> value == read,
        decoded is None ==> call_ensures(T::default, (), value),
{
    match decoded {
        Some(value) => value,
        None => T::default(),
    }
}

/// The saved singleton values, by name.
pub struct ReloadableResourceStore {
    map: NameMap<Vec<u8>>,
}

impl View for ReloadableResourceStore {
    type V = Map<Seq<char>, Seq<u8>>;

    closed spec fn view(&self) -> Map<Seq<char>, Seq<u8>> {
        snapshots(self.map@)
    }
}

impl Default for ReloadableResourceStore {
    fn default() -> (store: Self)
        ensures
            store.wf(),
            store@ == Map::<Seq<char>, Seq<u8>>::empty(),
    {
        let store = ReloadableResourceStore { map: NameMap::new() };
        store
    }
}

impl ReloadableResourceStore {
    pub closed spec fn wf(&self) -> bool {
        self.map.wf()
    }

    /// Whether nothing is saved.
    pub fn is_empty(&self) -> (empty: bool)
        requires
            self.wf(),
        ensures
            empty == (self@ == Map::<Seq<char>, Seq<u8>>::empty()),
    {
        proof {
            self.map.lemma_entries();
            if self.map.names().len() > 0 {
                assert(self@.dom().contains(self.map.names()[0]));
            } else {
                assert(self@ =~= Map::<Seq<char>, Seq<u8>>::empty());
            }
        }
        self.map.len() == 0
    }

    /// Keeps the outcome of an attempt to write the value named `name`.
    pub fn record(&mut self, name: &str, encoded: Option<Vec<u8>>)
        requires
            old(self).wf(),
        ensures
            final(self).wf(),
            final(self)@ == recorded(old(self)@, name@, bytes_of(encoded)),
    {
        match encoded {
            Some(bytes) => {
                self.map.insert(String::from_str(name), bytes);
            },
            None => {},
        }
    }

    /// The bytes saved under `name`.
    pub fn snapshot(&self, name: &str) -> (bytes: Option<&Vec<u8>>)
        requires
            self.wf(),
        ensures
            bytes_of_ref(bytes) == snapshot_of(self@, name@),
    {
        self.map.get(name)
    }

    /// Lets go of everything that is saved.
    pub fn clear(&mut self)
        ensures
            final(self).wf(),
            final(self)@ == Map::<Seq<char>, Seq<u8>>::empty(),
    {
        self.map = NameMap::new();
    }
}

/// The bytes behind a reference to saved bytes.
pub open spec fn bytes_of_ref(bytes: Option<&Vec<u8>>) -> Option<Seq<u8>> {
    match bytes {
        Some(bytes) => Some(bytes@),
        None => None,
    }
}

/// `value` is what restoring gives for a singleton value of type `R`
/// whose saved bytes are `snapshot`: what the bytes hold, if there are
/// bytes and they can be read, and the default of `R` otherwise.
pub open spec fn restores_resource<R: ReloadableResource>(snapshot: Option<Seq<u8>>, value: R) -> bool {
    match snapshot {
        None => call_ensures(R::default, (), value),
        Some(bytes) => exists|raw: &[u8], decoded: Option<R>|
            raw@ == bytes && #[trigger] call_ensures(R::deserialize, (raw,), decoded) && (match decoded {
                Some(read) => value == read,
                None => call_ensures(R::default, (), value),
            }),
    }
}

/// `value` is what restoring gives for a per-instance value of type `C`
/// whose saved bytes are `bytes`: what the bytes hold, if they can be
/// read, and the default of `C` otherwise.
pub open spec fn restores_component<C: ReloadableComponent>(bytes: Seq<u8>, value: C) -> bool {
    exists|raw: &[u8], decoded: Option<C>|
        raw@ == bytes && #[trigger] call_ensures(C::deserialize, (raw,), decoded) && (match decoded {
            Some(read) => value == read,
            None => call_ensures(C::default, (), value),
        })
}

/// Saves the singleton value `resource`, if there is one, under the
/// name that its type gives itself. A value that cannot be written is
/// not saved.
pub fn serialize_reloadable_resource<R: ReloadableResource>(
    store: &mut ReloadableResourceStore,
    resource: Option<&R>,
)
    requires
        old(store).wf(),
    ensures
        final(store).wf(),
        resource is None ==> final(store)@ == old(store)@,
        resource matches Some(value) ==> exists|name: &'static str, encoded: Option<Vec<u8>>|
            #![trigger call_ensures(R::get_type_name, (), name), call_ensures(R::serialize, (value,), encoded)]
            call_ensures(R::get_type_name, (), name) && call_ensures(R::serialize, (value,), encoded)
                && final(store)@ == recorded(old(store)@, name@, bytes_of(encoded)),
{
    match resource {
        None => {},
        Some(value) => {
            let name = R::get_type_name();
            let encoded = value.serialize();
            store.record(name, encoded);
        },
    }
}

/// Restores the singleton value of type `R`: from the bytes saved under
/// the name that the type gives itself, or as the default of `R` where
/// nothing is saved or the bytes cannot be read.
pub fn deserialize_reloadable_resource<R: ReloadableResource>(store: &ReloadableResourceStore) -> (value: R)
    requires
        store.wf(),
    ensures
        exists|name: &'static str| #[trigger]
            call_ensures(R::get_type_name, (), name) && restores_resource(snapshot_of(store@, name@), value),
{
    let name = R::get_type_name();
    match store.snapshot(name) {
        None => R::default(),
        Some(bytes) => {
            let decoded = R::deserialize(bytes.as_slice());
            restore_or_default(decoded)
        },
    }
}

/// The saved per-instance values, by name: for each name the instances
/// in the order in which they were saved, each with its identifier.
pub struct ReloadableComponentStore {
    map: NameMap<Vec<(u64, Vec<u8>)>>,
}

impl View for ReloadableComponentStore {
    type V = Map<Seq<char>, Seq<(u64, Seq<u8>)>>;

    closed spec fn view(&self) -> Map<Seq<char>, Seq<(u64, Seq<u8>)>> {
        instance_snapshots(self.map@)
    }
}

impl Default for ReloadableComponentStore {
    fn default() -> (store: Self)
        ensures
            store.wf(),
            store@ == Map::<Seq<char>, Seq<(u64, Seq<u8>)>>::empty(),
    {
        let store = ReloadableComponentStore { map: NameMap::new() };
        store
    }
}

impl ReloadableComponentStore {
    pub closed spec fn wf(&self) -> bool {
        self.map.wf()
    }

    /// Whether nothing is saved.
    pub fn is_empty(&self) -> (empty: bool)
        requires
            self.wf(),
        ensures
            empty == (self@ == Map::<Seq<char>, Seq<(u64, Seq<u8>)>>::empty()),
    {
        proof {
            self.map.lemma_entries();
            if self.map.names().len() > 0 {
                assert(self@.dom().contains(self.map.names()[0]));
            } else {
                assert(self@ =~= Map::<Seq<char>, Seq<(u64, Seq<u8>)>>::empty());
            }
        }
        self.map.len() == 0
    }

    /// Keeps the outcome of an attempt to write the value named `name`
    /// of the instance `instance`.
    pub fn record(&mut self, name: &str, instance: u64, encoded: Option<Vec<u8>>)
        requires
            old(self).wf(),
        ensures
            final(self).wf(),
            final(self)@ == recorded_instance(old(self)@, name@, instance, bytes_of(encoded)),
    {
        match encoded {
            Some(bytes) => {
                let mut list = match self.map.remove(name) {
                    Some(list) => list,
                    None => Vec::new(),
                };
                let ghost before = list@;
                list.push((instance, bytes));
                assert(instance_list(list@) =~= instance_list(before).push((instance, bytes@)));
                assert(instance_list(before) =~= instances_of(old(self)@, name@));
                self.map.insert(String::from_str(name), list);
            },
            None => {},
        }
    }

    /// Takes what is saved under `name` out of the store.
    pub fn take(&mut self, name: &str) -> (list: Vec<(u64, Vec<u8>)>)
        requires
            old(self).wf(),
        ensures
            final(self).wf(),
            final(self)@ == old(self)@.remove(name@),
            instance_list(list@) == instances_of(old(self)@, name@),
    {
        let list = match self.map.remove(name) {
            Some(list) => list,
            None => Vec::new(),
        };
        list
    }

    /// Lets go of everything that is saved.
    pub fn clear(&mut self)
        ensures
            final(self).wf(),
            final(self)@ == Map::<Seq<char>, Seq<(u64, Seq<u8>)>>::empty(),
    {
        self.map = NameMap::new();
    }
}

/// The store after the values of `instances` were saved one after the
/// other under `name`, `encoded` being the outcomes of writing them.
pub open spec fn recorded_instances(
    store: Map<Seq<char>, Seq<(u64, Seq<u8>)>>,
    name: Seq<char>,
    instances: Seq<u64>,
    encoded: Seq<Option<Seq<u8>>>,
) -> Map<Seq<char>, Seq<(u64, Seq<u8>)>>
    decreases instances.len(),
{
    if instances.len() == 0 || encoded.len() != instances.len() {
        store
    } else {
        recorded_instance(
            recorded_instances(store, name, instances.drop_last(), encoded.drop_last()),
            name,
            instances.last(),
            encoded.last(),
        )
    }
}

/// Saves the values of type `C` that the instances in `instances`
/// hold, under the name that the type gives itself. A value that cannot
/// be written is not saved.
pub fn serialize_reloadable_component<C: ReloadableComponent>(
    store: &mut ReloadableComponentStore,
    instances: &Vec<(u64, C)>,
)
    requires
        old(store).wf(),
    ensures
        final(store).wf(),
        exists|name: &'static str, encoded: Seq<Option<Vec<u8>>>|
            #![trigger call_ensures(C::get_type_name, (), name), encoded.len()]
            call_ensures(C::get_type_name, (), name) && encoded.len() == instances@.len() && (forall|i: int|
                0 <= i < instances@.len() ==> call_ensures(C::serialize, (&instances@[i].1,), #[trigger] encoded[i]))
                && final(store)@ == recorded_instances(
                old(store)@,
                name@,
                Seq::new(instances@.len(), |i: int| instances@[i].0),
                Seq::new(instances@.len(), |i: int| bytes_of(encoded[i])),
            ),
{
    let name = C::get_type_name();
    let ghost mut encoded: Seq<Option<Vec<u8>>> = Seq::empty();
    let mut i: usize = 0;
    while i < instances.len()
        invariant
            store.wf(),
            i <= instances@.len(),
            encoded.len() == i,
            forall|k: int| 0 <= k < i ==> call_ensures(C::serialize, (&instances@[k].1,), #[trigger] encoded[k]),
            store@ == recorded_instances(
                old(store)@,
                name@,
                Seq::new(i as nat, |k: int| instances@[k].0),
                Seq::new(i as nat, |k: int| bytes_of(encoded[k])),
            ),
        decreases instances@.len() - i,
    {
        let ghost ids = Seq::new(i as nat, |k: int| instances@[k].0);
        let ghost outcomes = Seq::new(i as nat, |k: int| bytes_of(encoded[k]));
        let bytes = instances[i].1.serialize();
        proof {
            encoded = encoded.push(bytes);
            let next_ids = Seq::new((i + 1) as nat, |k: int| instances@[k].0);
            let next_outcomes = Seq::new((i + 1) as nat, |k: int| bytes_of(encoded[k]));
            assert(next_ids.drop_last() =~= ids);
            assert(next_outcomes.drop_last() =~= outcomes);
        }
        store.record(name, instances[i].0, bytes);
        i += 1;
    }
}

/// `restored` is what restoring gives for the saved instances `saved`
/// where the instances `live` still exist: for each saved instance that
/// still exists, in the order in which they were saved, its identifier
/// and its value. Instances that no longer exist are left out.
pub open spec fn reattaches<C: ReloadableComponent>(
    saved: Seq<(u64, Seq<u8>)>,
    live: Seq<u64>,
    restored: Seq<(u64, C)>,
) -> bool
    decreases saved.len(),
{
    if saved.len() == 0 {
        restored.len() == 0
    } else if live.contains(saved.last().0) {
        &&& restored.len() > 0
        &&& restored.last().0 == saved.last().0
        &&& restores_component(saved.last().1, restored.last().1)
        &&& reattaches(saved.drop_last(), live, restored.drop_last())
    } else {
        reattaches(saved.drop_last(), live, restored)
    }
}

/// Whether `instance` is among `live`.
pub fn is_live(live: &Vec<u64>, instance: u64) -> (found: bool)
    ensures
        found == live@.contains(instance),
{
    let mut i: usize = 0;
    while i < live.len()
        invariant
            i <= live@.len(),
            forall|k: int| 0 <= k < i ==> live@[k] != instance,
        decreases live@.len() - i,
    {
        if live[i] == instance {
            return true;
        }
        i += 1;
    }
    false
}

/// Restores the values of type `C` saved under the name that the type
/// gives itself, for the instances among `live`, and takes them out of
/// the store. Bytes that cannot be read give the default of `C`.
pub fn deserialize_reloadable_component<C: ReloadableComponent>(
    store: &mut ReloadableComponentStore,
    live: &Vec<u64>,
) -> (restored: Vec<(u64, C)>)
    requires
        old(store).wf(),
    ensures
        final(store).wf(),
        exists|name: &'static str| #[trigger]
            call_ensures(C::get_type_name, (), name) && final(store)@ == old(store)@.remove(name@)
                && reattaches(instances_of(old(store)@, name@), live@, restored@),
{
    let name = C::get_type_name();
    let saved = store.take(name);
    let mut restored: Vec<(u64, C)> = Vec::new();
    let mut i: usize = 0;
    while i < saved.len()
        invariant
            i <= saved@.len(),
            reattaches(instance_list(saved@).take(i as int), live@, restored@),
        decreases saved@.len() - i,
    {
        let ghost before = restored@;
        proof {
            assert(instance_list(saved@).take(i + 1).drop_last() =~= instance_list(saved@).take(i as int));
        }
        if is_live(live, saved[i].0) {
            let decoded = C::deserialize(saved[i].1.as_slice());
            let value = restore_or_default(decoded);
            restored.push((saved[i].0, value));
            assert(restored@.drop_last() =~= before);
        }
        i += 1;
    }
    assert(instance_list(saved@).take(i as int) =~= instance_list(saved@));
    restored
}

} // verus!
