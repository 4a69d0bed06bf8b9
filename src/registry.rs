//! Foreign-issued handles: a concurrent `dashmap` registry from a handle
//! the runtime below issued to a position in one of the layer's tables.
use vstd::prelude::*;
use dashmap::DashMap;

verus! {

#[verifier::external_type_specification]
#[verifier::external_body]
#[verifier::reject_recursive_types(K)]
#[verifier::reject_recursive_types(V)]
#[verifier::reject_recursive_types(S)]
pub struct ExDashMap<K, V, S>(DashMap<K, V, S>);

/// What a registry holds: foreign handle to table position.
pub uninterp spec fn registry_entries(m: DashMap<u64, usize>) -> Map<u64, usize>;

/// Relies on `dashmap::DashMap::new`: a new map is empty.
#[verifier::external_body]
pub(crate) fn registry_new() -> (r: DashMap<u64, usize>)
    ensures
        registry_entries(r) =~= Map::empty(),
{
    DashMap::new()
}

/// Relies on `dashmap::DashMap::insert`: afterwards the key maps to the
/// value, and every other key is unchanged.
#[verifier::external_body]
pub(crate) fn registry_insert(m: &mut DashMap<u64, usize>, key: u64, value: usize)
    ensures
        registry_entries(*final(m)) == registry_entries(*old(m)).insert(key, value),
{
    m.insert(key, value);
}

/// Relies on `dashmap::DashMap::get`: the value under the key, if any.
#[verifier::external_body]
pub(crate) fn registry_get(m: &DashMap<u64, usize>, key: u64) -> (r: Option<usize>)
    ensures
        registry_entries(*m).contains_key(key) ==> r == Some(registry_entries(*m)[key]),
        !registry_entries(*m).contains_key(key) ==> r.is_none(),
{
    m.get(&key).map(|entry| *entry.value())
}

} // verus!
