use hot_reload::contents::ReloadableAppContents;
use hot_reload::labels::{CleanupReloaded, DeserializeReloadables, OnReloadComplete, SerializeReloadables};
use hot_reload::reloadable::{ReloadableComponent, ReloadableResource};

#[derive(Default)]
struct Score(u32);

impl ReloadableResource for Score {
    fn get_type_name() -> &'static str {
        "Score"
    }

    fn serialize(&self) -> Option<Vec<u8>> {
        Some(self.0.to_le_bytes().to_vec())
    }

    fn deserialize(_bytes: &[u8]) -> Option<Self> {
        None
    }
}

#[derive(Default)]
struct Health(u32);

impl ReloadableComponent for Health {
    fn get_type_name() -> &'static str {
        "Health"
    }

    fn serialize(&self) -> Option<Vec<u8>> {
        Some(self.0.to_le_bytes().to_vec())
    }

    fn deserialize(_bytes: &[u8]) -> Option<Self> {
        None
    }
}

#[test]
fn new_contents_hold_nothing() {
    let contents = ReloadableAppContents::default();
    assert_eq!(contents.systems("update"), Vec::<u64>::new());
    assert!(!contents.has_resource("Score"));
    assert!(!contents.has_component("Health"));
}

#[test]
fn adding_systems_makes_a_pipeline_and_then_appends_to_it() {
    let mut contents = ReloadableAppContents::default();
    contents.add_systems("update", vec![3, 1]);
    assert_eq!(contents.systems("update"), vec![3, 1]);
    contents.add_systems("update", vec![2]);
    assert_eq!(contents.systems("update"), vec![3, 1, 2]);
    contents.add_systems("update", vec![]);
    assert_eq!(contents.systems("update"), vec![3, 1, 2]);
    contents.add_systems("render", vec![9]);
    assert_eq!(contents.systems("render"), vec![9]);
    assert_eq!(contents.systems("update"), vec![3, 1, 2]);
    assert_eq!(contents.systems("other"), Vec::<u64>::new());
}

#[test]
fn a_label_type_and_its_name_mean_the_same_pipeline() {
    let mut contents = ReloadableAppContents::default();
    contents.add_systems(CleanupReloaded, vec![1]);
    contents.add_systems("CleanupReloaded", vec![2]);
    assert_eq!(contents.systems(CleanupReloaded), vec![1, 2]);
}

#[test]
fn registering_a_resource_twice_is_the_same_as_once() {
    let mut contents = ReloadableAppContents::default();
    contents.register_resource("Score", 10, 11);
    assert!(contents.has_resource("Score"));
    assert!(!contents.has_component("Score"));
    assert_eq!(contents.systems(SerializeReloadables), vec![10]);
    assert_eq!(contents.systems(DeserializeReloadables), vec![11]);
    contents.register_resource("Score", 20, 21);
    assert_eq!(contents.systems(SerializeReloadables), vec![10]);
    assert_eq!(contents.systems(DeserializeReloadables), vec![11]);
    contents.register_resource("Lives", 30, 31);
    assert_eq!(contents.systems(SerializeReloadables), vec![10, 30]);
    assert_eq!(contents.systems(DeserializeReloadables), vec![11, 31]);
}

#[test]
fn registering_a_component_twice_is_the_same_as_once() {
    let mut contents = ReloadableAppContents::default();
    contents.register_component("Health", 10, 11);
    contents.register_component("Health", 20, 21);
    assert!(contents.has_component("Health"));
    assert!(!contents.has_resource("Health"));
    assert_eq!(contents.systems(SerializeReloadables), vec![10]);
    assert_eq!(contents.systems(DeserializeReloadables), vec![11]);
}

#[test]
fn a_resource_and_a_component_may_share_a_name() {
    let mut contents = ReloadableAppContents::default();
    contents.register_resource("Shared", 1, 2);
    contents.register_component("Shared", 3, 4);
    assert_eq!(contents.systems(SerializeReloadables), vec![1, 3]);
    assert_eq!(contents.systems(DeserializeReloadables), vec![2, 4]);
}

#[test]
fn a_type_registers_under_the_name_it_gives_itself() {
    let mut contents = ReloadableAppContents::default();
    contents.insert_reloadable_resource::<Score>(1, 2);
    contents.insert_reloadable_resource::<Score>(3, 4);
    contents.register_reloadable_component::<Health>(5, 6);
    contents.register_reloadable_component::<Health>(7, 8);
    assert!(contents.has_resource("Score"));
    assert!(contents.has_component("Health"));
    assert_eq!(contents.systems(SerializeReloadables), vec![1, 5]);
    assert_eq!(contents.systems(DeserializeReloadables), vec![2, 6]);
}

#[test]
fn resets_run_when_state_is_restored() {
    let mut contents = ReloadableAppContents::default();
    contents.reset_resource(4);
    contents.reset_resource_to_value(5);
    assert_eq!(contents.systems(DeserializeReloadables), vec![4, 5]);
    assert_eq!(contents.systems(SerializeReloadables), Vec::<u64>::new());
}

#[test]
fn clearing_and_setting_up_go_to_their_pipelines() {
    let mut contents = ReloadableAppContents::default();
    contents.clear_marked_on_reload(1);
    assert_eq!(contents.systems(CleanupReloaded), vec![1]);
    contents.reset_setup(2, vec![20, 21]);
    assert_eq!(contents.systems(CleanupReloaded), vec![1, 2]);
    assert_eq!(contents.systems(OnReloadComplete), vec![20, 21]);
    contents.reset_setup_in_state("OnExit(Menu)", 3, vec![30]);
    assert_eq!(contents.systems(CleanupReloaded), vec![1, 2, 3]);
    assert_eq!(contents.systems("OnExit(Menu)"), vec![3]);
    assert_eq!(contents.systems("PreUpdate"), vec![30]);
    assert_eq!(contents.systems(OnReloadComplete), vec![20, 21]);
}

#[test]
fn registrations_can_be_chained() {
    let mut contents = ReloadableAppContents::default();
    contents
        .add_systems("update", vec![1])
        .insert_reloadable_resource::<Score>(2, 3)
        .register_reloadable_component::<Health>(4, 5)
        .reset_resource(6)
        .reset_resource_to_value(7)
        .clear_marked_on_reload(8)
        .reset_setup(9, vec![10])
        .reset_setup_in_state("OnExit(Menu)", 11, vec![12])
        .register_resource("Lives", 13, 14)
        .register_component("Armor", 15, 16)
        .add_systems("update", vec![17]);
    assert_eq!(contents.systems("update"), vec![1, 17]);
    assert_eq!(contents.systems(SerializeReloadables), vec![2, 4, 13, 15]);
    assert_eq!(contents.systems(DeserializeReloadables), vec![3, 5, 6, 7, 14, 16]);
    assert_eq!(contents.systems(CleanupReloaded), vec![8, 9, 11]);
    assert_eq!(contents.systems(OnReloadComplete), vec![10]);
    assert_eq!(contents.systems("OnExit(Menu)"), vec![11]);
    assert_eq!(contents.systems("PreUpdate"), vec![12]);
    assert!(contents.has_resource("Score") && contents.has_resource("Lives"));
    assert!(contents.has_component("Health") && contents.has_component("Armor"));
}
