//! The layer's object graph and the fault boundary around every call.
//!
//! Foreign-issued handles (instances, sessions) resolve through registries;
//! layer-issued handles (action sets, actions) through arenas. Both lead to
//! a position in one of the tables below. Children point at their owning
//! instance by position: a non-owning back-reference resolved on use.
use vstd::prelude::*;
use dashmap::DashMap;
use thunderdome::Arena;
use crate::action::LayerAction;
use crate::action_set::LayerActionSet;
use crate::arena::{arena_entries, arena_get, arena_new, arena_wf};
use crate::codes::{spec_error_code, LayerError};
use crate::instance::InstanceWrapper;
use crate::registry::{registry_entries, registry_get, registry_new};
use crate::session::SessionWrapper;

verus! {

/// The handle an intercepted call is made against.
#[derive(Clone, Copy, Debug, PartialEq, Eq, Structural)]
pub enum Target {
    Instance(u64),
    Session(u64),
    ActionSet(u64),
    Action(u64),
}

/// How an intercepted call ended.
#[derive(Clone, Copy, Debug)]
pub enum CallOutcome {
    /// The call returned: a foreign code, or an error of the layer.
    Returned(Result<i32, LayerError>),
    /// The call terminated abnormally.
    Aborted,
}

/// Every object the layer has created, and how handles lead to them.
pub struct Layer {
    pub instance_registry: DashMap<u64, usize>,
    pub instances: Vec<InstanceWrapper>,
    pub session_registry: DashMap<u64, usize>,
    pub sessions: Vec<SessionWrapper>,
    pub action_set_arena: Arena<usize>,
    pub action_sets: Vec<LayerActionSet>,
    pub action_arena: Arena<usize>,
    pub actions: Vec<LayerAction>,
}

impl Layer {
    pub open spec fn instance_entries(&self) -> Map<u64, usize> {
        registry_entries(self.instance_registry)
    }

    pub open spec fn session_entries(&self) -> Map<u64, usize> {
        registry_entries(self.session_registry)
    }

    pub open spec fn set_entries(&self) -> Map<u64, usize> {
        arena_entries(self.action_set_arena)
    }

    pub open spec fn action_entries(&self) -> Map<u64, usize> {
        arena_entries(self.action_arena)
    }

    /// Every handle leads to an existing object, every back-reference to
    /// an existing instance, and the arenas hold one entry per object.
    pub open spec fn wf(&self) -> bool {
        &&& forall|h: u64| #[trigger]
            self.instance_entries().contains_key(h) ==> self.instance_entries()[h]
                < self.instances@.len()
        &&& forall|h: u64| #[trigger]
            self.session_entries().contains_key(h) ==> self.session_entries()[h]
                < self.sessions@.len()
        &&& forall|i: int|
            0 <= i < self.sessions@.len() ==> #[trigger] self.sessions@[i].instance
                < self.instances@.len()
        &&& forall|i: int|
            0 <= i < self.sessions@.len() ==> #[trigger] self.sessions@[i].attached_within(
                self.action_sets@.len(),
            )
        &&& arena_wf(self.set_entries())
        &&& self.set_entries().dom().len() == self.action_sets@.len()
        &&& forall|h: u64| #[trigger]
            self.set_entries().contains_key(h) ==> self.set_entries()[h] < self.action_sets@.len()
        &&& forall|i: int|
            0 <= i < self.action_sets@.len() ==> #[trigger] self.action_sets@[i].instance
                < self.instances@.len()
        &&& arena_wf(self.action_entries())
        &&& self.action_entries().dom().len() == self.actions@.len()
        &&& forall|h: u64| #[trigger]
            self.action_entries().contains_key(h) ==> self.action_entries()[h] < self.actions@.len()
        &&& forall|i: int|
            0 <= i < self.actions@.len() ==> #[trigger] self.actions@[i].instance
                < self.instances@.len() && self.actions@[i].action_set < self.action_sets@.len()
    }

    /// The instance that owns what a handle leads to, if it leads anywhere.
    pub open spec fn owner(&self, t: Target) -> Option<int> {
        match t {
            Target::Instance(h) => if self.instance_entries().contains_key(h) {
                Some(self.instance_entries()[h] as int)
            } else {
                None
            },
            Target::Session(h) => if self.session_entries().contains_key(h) {
                Some(self.sessions@[self.session_entries()[h] as int].instance as int)
            } else {
                None
            },
            Target::ActionSet(h) => if self.set_entries().contains_key(h) {
                Some(self.action_sets@[self.set_entries()[h] as int].instance as int)
            } else {
                None
            },
            Target::Action(h) => if self.action_entries().contains_key(h) {
                Some(self.actions@[self.action_entries()[h] as int].instance as int)
            } else {
                None
            },
        }
    }

    /// Whether a call against a handle may go ahead: the handle must lead
    /// to an object, and its instance must not be poisoned.
    pub open spec fn spec_enter(&self, t: Target) -> Result<(), LayerError> {
        match self.owner(t) {
            None => Err(LayerError::HandleInvalid),
            Some(i) => if self.instances@[i].poisoned {
                Err(LayerError::InstanceLost)
            } else {
                Ok(())
            },
        }
    }

    /// The position in its table of the object a handle leads to.
    pub open spec fn position(&self, t: Target) -> Option<int> {
        match t {
            Target::Instance(h) => if self.instance_entries().contains_key(h) {
                Some(self.instance_entries()[h] as int)
            } else {
                None
            },
            Target::Session(h) => if self.session_entries().contains_key(h) {
                Some(self.session_entries()[h] as int)
            } else {
                None
            },
            Target::ActionSet(h) => if self.set_entries().contains_key(h) {
                Some(self.set_entries()[h] as int)
            } else {
                None
            },
            Target::Action(h) => if self.action_entries().contains_key(h) {
                Some(self.action_entries()[h] as int)
            } else {
                None
            },
        }
    }

    /// What a later state keeps of an earlier one: every handle that led to
    /// an object still leads to one (a foreign handle the runtime below
    /// handed out again leads to the new object), a handle that still leads
    /// to the same object has the same owner, and no poisoned instance
    /// recovers.
    pub open spec fn keeps(&self, earlier: &Layer) -> bool {
        &&& earlier.instances@.len() <= self.instances@.len()
        &&& forall|i: int|
            0 <= i < earlier.instances@.len() && #[trigger] earlier.instances@[i].poisoned
                ==> self.instances@[i].poisoned
        &&& forall|t: Target| #[trigger]
            earlier.owner(t) is Some ==> self.owner(t) is Some
        &&& forall|t: Target|
            #![trigger self.position(t)]
            #![trigger earlier.position(t)]
            earlier.position(t) is Some && self.position(t) == earlier.position(t) ==> self.owner(t)
                == earlier.owner(t)
    }

    /// This state differs from an earlier one only in that instance `i`
    /// is poisoned.
    pub open spec fn poisoned_only(&self, earlier: &Layer, i: int) -> bool {
        &&& self.instances@.len() == earlier.instances@.len()
        &&& self.instances@[i].poisoned
        &&& forall|j: int|
            0 <= j < earlier.instances@.len() && j != i ==> #[trigger] self.instances@[j]
                == earlier.instances@[j]
        &&& self.instance_registry == earlier.instance_registry
        &&& self.session_registry == earlier.session_registry
        &&& self.sessions == earlier.sessions
        &&& self.action_set_arena == earlier.action_set_arena
        &&& self.action_sets == earlier.action_sets
        &&& self.action_arena == earlier.action_arena
        &&& self.actions == earlier.actions
    }

    /// An empty layer.
    pub fn new() -> (r: Layer)
        ensures
            r.wf(),
            r.instances@.len() == 0,
            r.sessions@.len() == 0,
            r.action_sets@.len() == 0,
            r.actions@.len() == 0,
            r.instance_entries().dom().len() == 0,
            r.session_entries().dom().len() == 0,
            forall|t: Target| #[trigger] r.owner(t).is_none(),
    {
        let r = Layer {
            instance_registry: registry_new(),
            instances: Vec::new(),
            session_registry: registry_new(),
            sessions: Vec::new(),
            action_set_arena: arena_new(),
            action_sets: Vec::new(),
            action_arena: arena_new(),
            actions: Vec::new(),
        };
        r
    }

    /// The instance a handle leads to.
    fn owner_of(&self, t: Target) -> (r: Option<usize>)
        requires
            self.wf(),
        ensures
            r matches Some(i) ==> self.owner(t) == Some(i as int) && i < self.instances@.len(),
            r is None ==> self.owner(t) is None,
    {
        match t {
            Target::Instance(h) => registry_get(&self.instance_registry, h),
            Target::Session(h) => match registry_get(&self.session_registry, h) {
                Some(s) => Some(self.sessions[s].instance),
                None => None,
            },
            Target::ActionSet(h) => match crate::arena::arena_get(&self.action_set_arena, h) {
                Some(s) => Some(self.action_sets[s].instance),
                None => None,
            },
            Target::Action(h) => match crate::arena::arena_get(&self.action_arena, h) {
                Some(a) => Some(self.actions[a].instance),
                None => None,
            },
        }
    }

    /// The first half of the fault boundary: resolves the handle and
    /// refuses calls against a poisoned instance.
    pub fn enter(&self, t: Target) -> (r: Result<(), LayerError>)
        requires
            self.wf(),
        ensures
            r == self.spec_enter(t),
    {
        match self.owner_of(t) {
            None => Err(LayerError::HandleInvalid),
            Some(i) => if self.instances[i].poisoned {
                Err(LayerError::InstanceLost)
            } else {
                Ok(())
            },
        }
    }

    /// The second half of the fault boundary: a returned call reports its
    /// own code, errors included, and poisons nothing; an aborted call
    /// poisons the owning instance and reports it lost.
    pub fn leave(&mut self, t: Target, outcome: CallOutcome) -> (code: i32)
        requires
            old(self).wf(),
        ensures
            final(self).wf(),
            final(self).keeps(old(self)),
            outcome matches CallOutcome::Returned(res) ==> *final(self) == *old(self) && code as int
                == match res {
                Ok(c) => c as int,
                Err(e) => spec_error_code(e),
            },
            outcome is Aborted ==> code as int == spec_error_code(LayerError::InstanceLost),
            outcome is Aborted && old(self).owner(t) is None ==> *final(self) == *old(self),
            outcome is Aborted && old(self).owner(t) is Some ==> final(self).poisoned_only(
                old(self),
                old(self).owner(t).unwrap(),
            ),
    {
        match outcome {
            CallOutcome::Returned(res) => crate::codes::outcome_code(res),
            CallOutcome::Aborted => {
                if let Some(i) = self.owner_of(t) {
                    self.poison(i);
                }
                LayerError::InstanceLost.code()
            },
        }
    }

    /// Marks an instance poisoned; nothing else changes.
    fn poison(&mut self, i: usize)
        requires
            old(self).wf(),
            i < old(self).instances@.len(),
        ensures
            final(self).wf(),
            final(self).keeps(old(self)),
            final(self).poisoned_only(old(self), i as int),
    {
        self.instances[i].poisoned = true;
        assert(forall|t: Target| #[trigger] self.owner(t) == old(self).owner(t));
    }
}


impl Layer {
    /// The foreign handle of the instance that owns what a handle leads to.
    pub fn instance_handle(&self, t: Target) -> (r: Option<u64>)
        requires
            self.wf(),
        ensures
            self.owner(t) is None ==> r is None,
            self.owner(t) is Some ==> r == Some(self.instances@[self.owner(t).unwrap()].handle),
    {
        match self.owner_of(t) {
            Some(i) => Some(self.instances[i].handle),
            None => None,
        }
    }
}

} // verus!
