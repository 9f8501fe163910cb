//! Labels of task pipelines.
//!
//! A pipeline is found by the name of its label. The labels of the
//! pipelines that every reload cycle runs are types of their own.

use vstd::prelude::*;
use vstd::string::StringExecFns;

verus! {

/// Something that names a task pipeline.
pub trait ScheduleLabel {
    /// The name under which the pipeline is kept.
    spec fn label(&self) -> Seq<char>;

    /// The name under which the pipeline is kept, as a string.
    fn name(&self) -> (name: String)
        ensures
            name@ == self.label(),
    ;
}

impl<'a> ScheduleLabel for &'a str {
    open spec fn label(&self) -> Seq<char> {
        (*self)@
    }

    fn name(&self) -> (name: String) {
        String::from_str(*self)
    }
}

impl ScheduleLabel for String {
    open spec fn label(&self) -> Seq<char> {
        self@
    }

    fn name(&self) -> (name: String) {
        self.clone()
    }
}

/// The pipeline that saves the state that is to survive a reload.
#[derive(Debug, PartialEq, Eq, Hash, Clone)]
pub struct SerializeReloadables;

impl ScheduleLabel for SerializeReloadables {
    open spec fn label(&self) -> Seq<char> {
        "SerializeReloadables"@
    }

    fn name(&self) -> (name: String) {
        String::from_str("SerializeReloadables")
    }
}

/// The pipeline that puts the saved state back after a reload.
#[derive(Debug, PartialEq, Eq, Hash, Clone)]
pub struct DeserializeReloadables;

impl ScheduleLabel for DeserializeReloadables {
    open spec fn label(&self) -> Seq<char> {
        "DeserializeReloadables"@
    }

    fn name(&self) -> (name: String) {
        String::from_str("DeserializeReloadables")
    }
}

/// The pipeline in which each reloadable unit registers what it contributes.
#[derive(Debug, PartialEq, Eq, Hash, Clone)]
pub struct SetupReload;

impl ScheduleLabel for SetupReload {
    open spec fn label(&self) -> Seq<char> {
        "SetupReload"@
    }

    fn name(&self) -> (name: String) {
        String::from_str("SetupReload")
    }
}

/// The pipeline that removes what the module that is leaving set up.
#[derive(Debug, PartialEq, Eq, Hash, Clone)]
pub struct CleanupReloaded;

impl ScheduleLabel for CleanupReloaded {
    open spec fn label(&self) -> Seq<char> {
        "CleanupReloaded"@
    }

    fn name(&self) -> (name: String) {
        String::from_str("CleanupReloaded")
    }
}

/// The pipeline that runs once a reload cycle is complete.
#[derive(Debug, PartialEq, Eq, Hash, Clone)]
pub struct OnReloadComplete;

impl ScheduleLabel for OnReloadComplete {
    open spec fn label(&self) -> Seq<char> {
        "OnReloadComplete"@
    }

    fn name(&self) -> (name: String) {
        String::from_str("OnReloadComplete")
    }
}

/// The label of the pipeline that holds what a module contributed to
/// the pipeline labelled `T`.
#[derive(Debug, PartialEq, Eq, Hash, Clone)]
pub struct ReloadableSchedule<T: ScheduleLabel>(T);

impl<T: ScheduleLabel> ReloadableSchedule<T> {
    /// The label that this one wraps.
    pub closed spec fn inner(&self) -> T {
        self.0
    }

    pub fn get_inner(&self) -> (inner: &T)
        ensures
            *inner == self.inner(),
    {
        &self.0
    }

    pub fn new(label: T) -> (wrapped: Self)
        ensures
            wrapped.inner() == label,
    {
        Self(label)
    }
}

impl<T: ScheduleLabel> ScheduleLabel for ReloadableSchedule<T> {
    open spec fn label(&self) -> Seq<char> {
        "ReloadableSchedule("@ + self.inner().label() + ")"@
    }

    fn name(&self) -> (name: String) {
        let mut name = String::from_str("ReloadableSchedule(");
        let inner = self.0.name();
        name.append(inner.as_str());
        name.append(")");
        name
    }
}

} // verus!
