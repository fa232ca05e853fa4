//! What has to exist in the store before the engine serves calls.

use vstd::prelude::*;

verus! {

/// The name of the collection in which the engine keeps its own records.
pub open spec fn bookkeeping_collection() -> Seq<char> {
    "alchemy_collections"@
}

/// Whether a collection named `wanted` is among `names`.
pub open spec fn has_collection(names: Seq<String>, wanted: Seq<char>) -> bool {
    exists|i: int| 0 <= i < names.len() && (#[trigger] names[i])@ == wanted
}

/// Looks for the collection `wanted` among the names of the collections
/// that the store holds.
pub fn holds_collection(collections: &Vec<String>, wanted: &str) -> (held: bool)
    ensures
        held == has_collection(collections@, wanted@),
{
    let wanted_name = String::from_str(wanted);
    let mut i: usize = 0;
    while i < collections.len()
        invariant
            i <= collections.len(),
            wanted_name@ == wanted@,
            forall|j: int| 0 <= j < i ==> (#[trigger] collections@[j])@ != wanted@,
        decreases collections.len() - i,
    {
        if collections[i] == wanted_name {
            return true;
        }
        i += 1;
    }
    false
}

/// Decides, from the names of the collections that the store holds,
/// whether the bookkeeping collection has yet to be created.
pub fn needs_initialization(collections: &Vec<String>) -> (needed: bool)
    ensures
        needed == !has_collection(collections@, bookkeeping_collection()),
{
    !holds_collection(collections, "alchemy_collections")
}

} // verus!
