//! Sessions: created below, registered here, attached exactly once.
use vstd::prelude::*;
use std::collections::HashMap;

verus! {

/// What attaching action sets to a session establishes.
#[derive(Debug)]
pub struct InnerSession {
    /// The input-abstraction session begun for it.
    pub input_session: u64,
    /// Per attached action-set handle, the set's position in the layer's
    /// action-set table.
    pub action_sets: HashMap<u64, usize>,
}

/// The layer's state for one foreign session.
#[derive(Debug)]
pub struct SessionWrapper {
    /// The foreign handle.
    pub handle: u64,
    /// The owning instance, as a position in the layer's instance table.
    pub instance: usize,
    /// Absent until action sets are attached; set at most once.
    pub inner: Option<InnerSession>,
}

/// The value under a key, if any.
pub open spec fn map_get(m: Map<u64, usize>, key: u64) -> Option<usize> {
    if m.contains_key(key) {
        Some(m[key])
    } else {
        None
    }
}

impl SessionWrapper {
    /// The attached action set under a handle, if the session is attached
    /// and the set is among those attached.
    pub open spec fn attached_set(&self, handle: u64) -> Option<usize> {
        match self.inner {
            Some(inner) => map_get(inner.action_sets@, handle),
            None => None,
        }
    }

    /// Every attached action set is a position below `n`.
    pub open spec fn attached_within(&self, n: nat) -> bool {
        match self.inner {
            Some(inner) => forall|h: u64| #[trigger]
                inner.action_sets@.contains_key(h) ==> inner.action_sets@[h] < n,
            None => true,
        }
    }

    /// Looks up an attached action set by its handle.
    pub fn find_attached(&self, handle: u64) -> (r: Option<usize>)
        ensures
            r == self.attached_set(handle),
    {
        match &self.inner {
            Some(inner) => match inner.action_sets.get(&handle) {
                Some(set) => Some(*set),
                None => None,
            },
            None => None,
        }
    }
}

} // verus!
