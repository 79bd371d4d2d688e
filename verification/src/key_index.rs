//! The hash map from identifier to registry index that the registries keep
//! beside their lists.
use vstd::prelude::*;
use rustc_hash::{FxBuildHasher, FxHashMap};
use crate::identifier::{Identifier, IdentifierModel};

verus! {

#[verifier::external_type_specification]
#[verifier::external_body]
pub struct ExFxBuildHasher(FxBuildHasher);

/// A map from identifier to registry index.
pub type KeyIndex = FxHashMap<Identifier, usize>;

/// What a key index holds: each identifier, taken by its text, with its index.
pub uninterp spec fn key_index(m: KeyIndex) -> Map<IdentifierModel, usize>;

/// The map that holds no key.
pub open spec fn no_keys() -> Map<IdentifierModel, usize> {
    Map::empty()
}

/// `FxHashMap::default()`: an empty map.
#[verifier::external_body]
pub(crate) fn key_index_new() -> (index: KeyIndex)
    ensures
        key_index(index) == no_keys(),
{
    FxHashMap::default()
}

/// `HashMap::insert`: afterwards the key maps to `idx` and every other key
/// keeps its entry. `Identifier`'s derived `Eq` and `Hash` go by its two
/// strings, so keys are told apart by their text.
#[verifier::external_body]
pub(crate) fn key_index_insert(m: &mut KeyIndex, key: Identifier, idx: usize)
    ensures
        key_index(*final(m)) == key_index(*old(m)).insert(key@, idx),
{
    m.insert(key, idx);
}

/// `HashMap::get`: the index stored under the key, if there is one.
#[verifier::external_body]
pub(crate) fn key_index_get<'a>(m: &'a KeyIndex, key: &Identifier) -> (r: Option<&'a usize>)
    ensures
        r is Some <==> key_index(*m).dom().contains(key@),
        r matches Some(v) ==> *v == key_index(*m)[key@],
{
    m.get(key)
}

} // verus!
