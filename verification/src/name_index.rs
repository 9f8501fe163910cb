//! A hash index from names to slot numbers.
//!
//! The index is the one place where this crate leans on a hash map from
//! outside: everything here is believed, not proved.

use vstd::prelude::*;

verus! {

/// A map from names to slot numbers, kept in `bevy::utils::HashMap`,
/// which is hashbrown's `HashMap` with a hasher of bevy's choosing.
///
/// Nothing inside it is visible to the verifier; what it holds is
/// spoken of through [`index_entries`].
#[verifier::external_body]
pub struct NameIndex {
    map: bevy::utils::HashMap<String, usize>,
}

/// What an index holds: for each name in it, the slot number stored
/// under that name.
pub uninterp spec fn index_entries(index: NameIndex) -> Map<Seq<char>, usize>;

/// `hashbrown::HashMap::default`, through `bevy::utils::HashMap`: claims
/// that the new map holds no entry.
#[verifier::external_body]
pub(crate) fn index_new() -> (index: NameIndex)
    ensures
        index_entries(index).dom() == Set::<Seq<char>>::empty(),
{
    NameIndex { map: bevy::utils::HashMap::default() }
}

/// `hashbrown::HashMap::get`, followed by `Option::copied`: claims that
/// the slot stored under `name` comes back if the name is in the map,
/// and `None` if it is not.
#[verifier::external_body]
pub(crate) fn index_get(index: &NameIndex, name: &str) -> (slot: Option<usize>)
    ensures
        index_entries(*index).dom().contains(name@) ==> slot == Some(index_entries(*index)[name@]),
        !index_entries(*index).dom().contains(name@) ==> slot.is_none(),
{
    index.map.get(name).copied()
}

/// `hashbrown::HashMap::insert`: claims that afterwards `name` maps to
/// `slot` and every other name maps to what it mapped to before. What
/// the call returns, the slot stored before, is dropped.
#[verifier::external_body]
pub(crate) fn index_insert(index: &mut NameIndex, name: String, slot: usize)
    ensures
        index_entries(*final(index)) == index_entries(*old(index)).insert(name@, slot),
{
    index.map.insert(name, slot);
}

/// `hashbrown::HashMap::remove`: claims that afterwards `name` is absent
/// and every other name maps to what it mapped to before. What the call
/// returns, the slot stored before, is dropped.
#[verifier::external_body]
pub(crate) fn index_remove(index: &mut NameIndex, name: &str)
    ensures
        index_entries(*final(index)) == index_entries(*old(index)).remove(name@),
{
    index.map.remove(name);
}

} // verus!
