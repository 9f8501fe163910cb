use hot_reload::labels::{
    CleanupReloaded, DeserializeReloadables, OnReloadComplete, ReloadableSchedule, ScheduleLabel,
    SerializeReloadables, SetupReload,
};
use hot_reload::ui::{
    ButtonNode, ClickedEventEmitter, ImageNode, ReloadUi, TextNode, UiEvent, UiId, UiUpdate,
};

#[test]
fn the_labels_of_the_cycle_have_their_own_names() {
    assert_eq!(SerializeReloadables.name(), "SerializeReloadables");
    assert_eq!(DeserializeReloadables.name(), "DeserializeReloadables");
    assert_eq!(SetupReload.name(), "SetupReload");
    assert_eq!(CleanupReloaded.name(), "CleanupReloaded");
    assert_eq!(OnReloadComplete.name(), "OnReloadComplete");
    assert_eq!(ReloadUi.name(), "ReloadUi");
    assert_eq!(UiUpdate.name(), "UiUpdate");
    assert_eq!(UiEvent.name(), "UiEvent");
}

#[test]
fn a_string_is_its_own_label() {
    assert_eq!("update".name(), "update");
    assert_eq!("update".to_string().name(), "update");
    assert_eq!("".name(), "");
}

#[test]
fn a_wrapped_label_names_its_inner_label() {
    let wrapped = ReloadableSchedule::new(SerializeReloadables);
    assert_eq!(wrapped.name(), "ReloadableSchedule(SerializeReloadables)");
    assert_eq!(wrapped.get_inner().name(), "SerializeReloadables");
    assert_eq!(*wrapped.get_inner(), SerializeReloadables);
    assert_eq!(ReloadableSchedule::new("Custom").name(), "ReloadableSchedule(Custom)");
    let twice = ReloadableSchedule::new(ReloadableSchedule::new("x"));
    assert_eq!(twice.name(), "ReloadableSchedule(ReloadableSchedule(x))");
}

#[test]
fn a_ui_id_gives_back_its_value() {
    let id = UiId::new(7u32);
    assert_eq!(*id.val(), 7);
    let copy = id;
    assert_eq!(*copy.val(), 7);
    assert_eq!(*UiId::new('x').val(), 'x');
}

#[test]
fn markers_are_plain_values() {
    let _button = ButtonNode;
    let _image = ImageNode::default().clone();
    let _text = TextNode::default().clone();
    let emitter = ClickedEventEmitter("clicked");
    assert_eq!(emitter.0, "clicked");
}

#[test]
fn the_root_of_the_crate_offers_the_main_types() {
    let mut world = hot_reload::ReloadableWorld::new(
        hot_reload::LibPathSet {
            folder: "f".to_string(),
            name: "n".to_string(),
            extension: "e".to_string(),
            watch_folder: "w".to_string(),
        },
        0,
    );
    assert_eq!(
        world.report(hot_reload::ReloadInput::Tick { now: 0 }),
        hot_reload::ReloadAction::CheckArtifact
    );
}
