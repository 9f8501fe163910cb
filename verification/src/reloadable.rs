//! What the application implements for the state that is to survive a
//! reload, and for the units that can be reloaded.

use vstd::prelude::*;
use crate::contents::ReloadableAppContents;

verus! {

/// A value of which the application holds at most one, and which
/// survives a reload as bytes.
///
/// The name finds the value again after the reload: the type itself may
/// have been replaced by then.
pub trait ReloadableResource: Default {
    /// The name under which the value is saved.
    fn get_type_name() -> &'static str;

    /// The value as bytes, or `None` if it cannot be written.
    fn serialize(&self) -> Option<Vec<u8>>;

    /// The value that the bytes hold, or `None` if they hold none.
    fn deserialize(bytes: &[u8]) -> Option<Self>;
}

/// A value of which each instance of the application may hold one, and
/// which survives a reload as bytes beside the instance's identifier.
pub trait ReloadableComponent: Default {
    /// The name under which the values are saved.
    fn get_type_name() -> &'static str;

    /// The value as bytes, or `None` if it cannot be written.
    fn serialize(&self) -> Option<Vec<u8>>;

    /// The value that the bytes hold, or `None` if they hold none.
    fn deserialize(bytes: &[u8]) -> Option<Self>;
}

/// A unit of the application's logic that a module can replace.
pub trait ReloadableSetup {
    /// The name of the entry point that a module exports for this unit.
    fn setup_function_name() -> &'static str;

    /// What the unit contributes when no module is loaded.
    fn default_function(app: &mut ReloadableAppContents)
        requires
            old(app).wf(),
        ensures
            final(app).wf(),
    ;
}

} // verus!
