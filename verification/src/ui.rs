//! Markers and identifiers that a user interface built on reloadable
//! pipelines attaches to what it spawns.

use vstd::prelude::*;
use std::fmt::Debug;
use std::hash::Hash;
use vstd::string::StringExecFns;
use crate::labels::ScheduleLabel;

verus! {

/// An identifier that the application gives to an element of its
/// interface, so that it can find the element again.
#[derive(Debug, Clone, Copy)]
pub struct UiId<T: Debug + PartialEq + Eq + Hash + Sync + Send + Clone + Copy>(T);

impl<T: Debug + PartialEq + Eq + Hash + Sync + Send + Clone + Copy> UiId<T> {
    /// The value that the identifier was made from.
    pub closed spec fn value(&self) -> T {
        self.0
    }

    pub fn val(&self) -> (val: &T)
        ensures
            *val == self.value(),
    {
        &self.0
    }

    pub fn new(val: T) -> (id: Self)
        ensures
            id.value() == val,
    {
        Self(val)
    }
}

/// Marks an element as a button.
pub struct ButtonNode;

/// Marks an element as an image.
#[derive(Clone, Default)]
pub struct ImageNode;

/// Marks an element as a piece of text.
#[derive(Clone, Default)]
pub struct TextNode;

/// Carries the event that a button sends when it is clicked.
pub struct ClickedEventEmitter<T: Send + Sync>(pub T);

/// The pipeline that rebuilds the interface after a reload.
#[derive(Clone, Debug, PartialEq, Eq, Hash)]
pub struct ReloadUi;

impl ScheduleLabel for ReloadUi {
    open spec fn label(&self) -> Seq<char> {
        "ReloadUi"@
    }

    fn name(&self) -> (name: String) {
        String::from_str("ReloadUi")
    }
}

/// The pipeline that updates the interface each tick.
#[derive(Clone, Debug, PartialEq, Eq, Hash)]
pub struct UiUpdate;

impl ScheduleLabel for UiUpdate {
    open spec fn label(&self) -> Seq<char> {
        "UiUpdate"@
    }

    fn name(&self) -> (name: String) {
        String::from_str("UiUpdate")
    }
}

/// The pipeline that handles the events of the interface.
#[derive(Clone, Debug, PartialEq, Eq, Hash)]
pub struct UiEvent;

impl ScheduleLabel for UiEvent {
    open spec fn label(&self) -> Seq<char> {
        "UiEvent"@
    }

    fn name(&self) -> (name: String) {
        String::from_str("UiEvent")
    }
}

} // verus!
