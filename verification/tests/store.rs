use hot_reload::reloadable::{ReloadableComponent, ReloadableResource};
use hot_reload::store::{
    deserialize_reloadable_component, deserialize_reloadable_resource, is_live, restore_or_default,
    serialize_reloadable_component, serialize_reloadable_resource, ReloadableComponentStore,
    ReloadableResourceStore,
};

#[derive(Debug, PartialEq)]
struct Counter(u64);

impl Default for Counter {
    fn default() -> Self {
        Counter(100)
    }
}

impl ReloadableResource for Counter {
    fn get_type_name() -> &'static str {
        "Counter"
    }

    fn serialize(&self) -> Option<Vec<u8>> {
        rmp_serde::to_vec(&self.0).ok()
    }

    fn deserialize(bytes: &[u8]) -> Option<Self> {
        rmp_serde::from_slice(bytes).ok().map(Counter)
    }
}

#[derive(Debug, PartialEq, Default)]
struct Title(String);

impl ReloadableResource for Title {
    fn get_type_name() -> &'static str {
        "Title"
    }

    fn serialize(&self) -> Option<Vec<u8>> {
        rmp_serde::to_vec(&self.0).ok()
    }

    fn deserialize(bytes: &[u8]) -> Option<Self> {
        rmp_serde::from_slice(bytes).ok().map(Title)
    }
}

#[derive(Debug, PartialEq, Default)]
struct Unwritable;

impl ReloadableResource for Unwritable {
    fn get_type_name() -> &'static str {
        "Unwritable"
    }

    fn serialize(&self) -> Option<Vec<u8>> {
        None
    }

    fn deserialize(_bytes: &[u8]) -> Option<Self> {
        None
    }
}

#[derive(Debug, PartialEq)]
struct Health(i32);

impl Default for Health {
    fn default() -> Self {
        Health(-1)
    }
}

impl ReloadableComponent for Health {
    fn get_type_name() -> &'static str {
        "Health"
    }

    fn serialize(&self) -> Option<Vec<u8>> {
        if self.0 < 0 {
            None
        } else {
            rmp_serde::to_vec(&self.0).ok()
        }
    }

    fn deserialize(bytes: &[u8]) -> Option<Self> {
        rmp_serde::from_slice(bytes).ok().map(Health)
    }
}

#[test]
fn a_new_store_is_empty() {
    let store = ReloadableResourceStore::default();
    assert!(store.is_empty());
    assert_eq!(store.snapshot("Counter"), None);
    let components = ReloadableComponentStore::default();
    assert!(components.is_empty());
}

#[test]
fn recording_bytes_keeps_them_under_the_name() {
    let mut store = ReloadableResourceStore::default();
    store.record("a", Some(vec![1, 2, 3]));
    store.record("b", Some(vec![]));
    assert!(!store.is_empty());
    assert_eq!(store.snapshot("a"), Some(&vec![1, 2, 3]));
    assert_eq!(store.snapshot("b"), Some(&vec![]));
    assert_eq!(store.snapshot("c"), None);
    store.record("a", Some(vec![9]));
    assert_eq!(store.snapshot("a"), Some(&vec![9]));
}

#[test]
fn a_failed_attempt_leaves_the_store_as_it_was() {
    let mut store = ReloadableResourceStore::default();
    store.record("a", None);
    assert!(store.is_empty());
    store.record("a", Some(vec![1]));
    store.record("a", None);
    assert_eq!(store.snapshot("a"), Some(&vec![1]));
}

#[test]
fn clearing_a_store_lets_go_of_everything() {
    let mut store = ReloadableResourceStore::default();
    store.record("a", Some(vec![1]));
    store.clear();
    assert!(store.is_empty());
    assert_eq!(store.snapshot("a"), None);
    let mut components = ReloadableComponentStore::default();
    components.record("Health", 1, Some(vec![1]));
    assert!(!components.is_empty());
    components.clear();
    assert!(components.is_empty());
}

#[test]
fn a_value_that_was_read_comes_back_and_a_missing_one_is_the_default() {
    assert_eq!(restore_or_default(Some(Counter(4))), Counter(4));
    assert_eq!(restore_or_default::<Counter>(None), Counter(100));
    assert_eq!(restore_or_default::<u8>(None), 0);
}

#[test]
fn a_saved_value_comes_back_equal() {
    let mut store = ReloadableResourceStore::default();
    serialize_reloadable_resource(&mut store, Some(&Counter(5)));
    serialize_reloadable_resource(&mut store, Some(&Title("hello".to_string())));
    assert_eq!(store.snapshot("Counter"), Some(&rmp_serde::to_vec(&5u64).unwrap()));
    assert_eq!(deserialize_reloadable_resource::<Counter>(&store), Counter(5));
    assert_eq!(deserialize_reloadable_resource::<Title>(&store), Title("hello".to_string()));
    serialize_reloadable_resource(&mut store, Some(&Counter(u64::MAX)));
    assert_eq!(deserialize_reloadable_resource::<Counter>(&store), Counter(u64::MAX));
}

#[test]
fn a_value_that_is_not_there_is_not_saved() {
    let mut store = ReloadableResourceStore::default();
    serialize_reloadable_resource::<Counter>(&mut store, None);
    assert!(store.is_empty());
}

#[test]
fn a_value_that_cannot_be_written_is_skipped() {
    let mut store = ReloadableResourceStore::default();
    serialize_reloadable_resource(&mut store, Some(&Counter(5)));
    serialize_reloadable_resource(&mut store, Some(&Unwritable));
    assert_eq!(store.snapshot("Unwritable"), None);
    assert_eq!(deserialize_reloadable_resource::<Counter>(&store), Counter(5));
    assert_eq!(deserialize_reloadable_resource::<Unwritable>(&store), Unwritable);
}

#[test]
fn a_missing_snapshot_restores_the_default() {
    let store = ReloadableResourceStore::default();
    assert_eq!(deserialize_reloadable_resource::<Counter>(&store), Counter(100));
    assert_eq!(deserialize_reloadable_resource::<Title>(&store), Title(String::new()));
}

#[test]
fn corrupt_bytes_restore_the_default() {
    let mut store = ReloadableResourceStore::default();
    let mut bytes = rmp_serde::to_vec(&70000u64).unwrap();
    bytes.truncate(bytes.len() - 1);
    store.record("Counter", Some(bytes));
    store.record("Title", Some(vec![0xc1]));
    assert_eq!(deserialize_reloadable_resource::<Counter>(&store), Counter(100));
    assert_eq!(deserialize_reloadable_resource::<Title>(&store), Title(String::new()));
    store.record("Counter", Some(vec![]));
    assert_eq!(deserialize_reloadable_resource::<Counter>(&store), Counter(100));
}

#[test]
fn instances_are_saved_in_order_with_their_identifiers() {
    let mut store = ReloadableComponentStore::default();
    store.record("Health", 4, Some(vec![1]));
    store.record("Health", 2, Some(vec![2, 2]));
    store.record("Health", 9, None);
    store.record("Armor", 4, Some(vec![3]));
    assert_eq!(store.take("Health"), vec![(4, vec![1]), (2, vec![2, 2])]);
    assert_eq!(store.take("Health"), Vec::<(u64, Vec<u8>)>::new());
    assert_eq!(store.take("Armor"), vec![(4, vec![3])]);
    assert!(store.is_empty());
}

#[test]
fn the_values_of_instances_come_back_to_the_same_instances() {
    let mut store = ReloadableComponentStore::default();
    let instances = vec![(10, Health(3)), (11, Health(0)), (12, Health(7))];
    serialize_reloadable_component(&mut store, &instances);
    let restored: Vec<(u64, Health)> = deserialize_reloadable_component(&mut store, &vec![12, 10, 11]);
    assert_eq!(restored, vec![(10, Health(3)), (11, Health(0)), (12, Health(7))]);
    assert!(store.is_empty());
}

#[test]
fn instances_that_no_longer_exist_are_left_out() {
    let mut store = ReloadableComponentStore::default();
    let instances = vec![(10, Health(3)), (11, Health(0)), (12, Health(7))];
    serialize_reloadable_component(&mut store, &instances);
    let restored: Vec<(u64, Health)> = deserialize_reloadable_component(&mut store, &vec![12, 10]);
    assert_eq!(restored, vec![(10, Health(3)), (12, Health(7))]);
    let again: Vec<(u64, Health)> = deserialize_reloadable_component(&mut store, &vec![12, 10]);
    assert_eq!(again, vec![]);
}

#[test]
fn an_instance_whose_value_cannot_be_written_is_skipped() {
    let mut store = ReloadableComponentStore::default();
    let instances = vec![(1, Health(3)), (2, Health(-5)), (3, Health(7))];
    serialize_reloadable_component(&mut store, &instances);
    let restored: Vec<(u64, Health)> = deserialize_reloadable_component(&mut store, &vec![1, 2, 3]);
    assert_eq!(restored, vec![(1, Health(3)), (3, Health(7))]);
}

#[test]
fn corrupt_bytes_of_an_instance_restore_its_default() {
    let mut store = ReloadableComponentStore::default();
    store.record("Health", 1, Some(rmp_serde::to_vec(&8i32).unwrap()));
    store.record("Health", 2, Some(vec![0xc1, 0xff]));
    let restored: Vec<(u64, Health)> = deserialize_reloadable_component(&mut store, &vec![1, 2]);
    assert_eq!(restored, vec![(1, Health(8)), (2, Health(-1))]);
}

#[test]
fn saving_twice_adds_to_what_is_saved() {
    let mut store = ReloadableComponentStore::default();
    serialize_reloadable_component(&mut store, &vec![(1, Health(1))]);
    serialize_reloadable_component(&mut store, &vec![(2, Health(2))]);
    serialize_reloadable_component::<Health>(&mut store, &vec![]);
    let restored: Vec<(u64, Health)> = deserialize_reloadable_component(&mut store, &vec![1, 2]);
    assert_eq!(restored, vec![(1, Health(1)), (2, Health(2))]);
}

#[test]
fn liveness_is_membership() {
    assert!(is_live(&vec![3, 1, 2], 1));
    assert!(is_live(&vec![3, 1, 2], 2));
    assert!(!is_live(&vec![3, 1, 2], 4));
    assert!(!is_live(&vec![], 0));
}
