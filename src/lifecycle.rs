//! Creating objects: instances, systems, sessions, action sets, and the
//! suggested interaction profiles of an instance.
use vstd::prelude::*;
use crate::action_set::LayerActionSet;
use crate::arena::{arena_get, arena_insert, lemma_insert_keeps_wf};
use crate::codes::{LayerError, SUCCESS};
use crate::instance::{runtime_named, InstanceWrapper, Runtime, SimpleBinding, SystemMeta};
use crate::layer::{Layer, Target};
use crate::negotiate::{check_layer_name, LAYER_NAME};
use crate::registry::{registry_get, registry_insert};
use crate::session::SessionWrapper;
use crate::text::{c_text, str_from_bytes_until_nul};

verus! {

impl Layer {
    /// Nothing but the instance table differs from an earlier state.
    pub open spec fn same_except_instances(&self, earlier: &Layer) -> bool {
        &&& self.instance_registry == earlier.instance_registry
        &&& self.session_registry == earlier.session_registry
        &&& self.sessions == earlier.sessions
        &&& self.action_set_arena == earlier.action_set_arena
        &&& self.action_sets == earlier.action_sets
        &&& self.action_arena == earlier.action_arena
        &&& self.actions == earlier.actions
    }

    /// The instance table differs from an earlier one at position `i` alone.
    pub open spec fn other_instances_same(&self, earlier: &Layer, i: int) -> bool {
        &&& self.instances@.len() == earlier.instances@.len()
        &&& forall|j: int|
            0 <= j < earlier.instances@.len() && j != i ==> #[trigger] self.instances@[j]
                == earlier.instances@[j]
    }

    /// The position of the instance a valid instance handle leads to.
    pub open spec fn instance_index(&self, h: u64) -> int {
        self.instance_entries()[h] as int
    }

    /// This state is an earlier one with one more instance, registered
    /// under `handle`, named `application_name`, running on `runtime_name`.
    pub open spec fn instance_added(
        &self,
        earlier: &Layer,
        handle: u64,
        application_name: Seq<char>,
        runtime_name: Seq<char>,
    ) -> bool {
        let i = earlier.instances@.len() as int;
        &&& self.instance_entries() == earlier.instance_entries().insert(handle, i as usize)
        &&& self.instances@.len() == i + 1
        &&& forall|j: int| 0 <= j < i ==> #[trigger] self.instances@[j] == earlier.instances@[j]
        &&& self.instances@[i].handle == handle
        &&& self.instances@[i].application_name@ == application_name
        &&& runtime_named(&self.instances@[i].runtime, runtime_name)
        &&& !self.instances@[i].poisoned
        &&& self.instances@[i].systems@.len() == 0
        &&& self.instances@[i].session_entries() == Map::<u64, usize>::empty()
        &&& self.instances@[i].suggested_bindings@.len() == 0
        &&& self.session_registry == earlier.session_registry
        &&& self.sessions == earlier.sessions
        &&& self.action_set_arena == earlier.action_set_arena
        &&& self.action_sets == earlier.action_sets
        &&& self.action_arena == earlier.action_arena
        &&& self.actions == earlier.actions
    }

    /// Registers a new instance, created below under `handle`, once the
    /// runtime below reported its name. A handle value that is still
    /// registered (the runtime below reused it after the earlier instance
    /// was destroyed) now leads to the new instance. Fails without
    /// registering anything when the layer name the loader put in the chain
    /// is not this layer's (checked first), or when either other name is not
    /// a nul-terminated UTF-8 text.
    pub fn create_instance(
        &mut self,
        handle: u64,
        layer_name: &[i8],
        application_name: &[i8],
        runtime_name: &[i8],
    ) -> (r: Result<usize, LayerError>)
        requires
            old(self).wf(),
        ensures
            final(self).wf(),
            final(self).keeps(old(self)),
            c_text(layer_name@) != Some(LAYER_NAME@) ==> r == Err::<usize, LayerError>(
                LayerError::ValidationFailure,
            ) && *final(self) == *old(self),
            c_text(layer_name@) == Some(LAYER_NAME@) && (c_text(application_name@) is None
                || c_text(runtime_name@) is None) ==> r == Err::<usize, LayerError>(
                LayerError::ValidationFailure,
            ) && *final(self) == *old(self),
            c_text(layer_name@) == Some(LAYER_NAME@) && c_text(application_name@) is Some
                && c_text(runtime_name@) is Some ==> r == Ok::<usize, LayerError>(
                old(self).instances@.len() as usize,
            ) && final(self).instance_added(
                old(self),
                handle,
                c_text(application_name@).unwrap(),
                c_text(runtime_name@).unwrap(),
            ),
    {
        if let Err(e) = check_layer_name(layer_name) {
            return Err(e);
        }
        let application_name = match str_from_bytes_until_nul(application_name) {
            Ok(s) => s,
            Err(e) => return Err(e),
        };
        let runtime_name = match str_from_bytes_until_nul(runtime_name) {
            Ok(s) => s,
            Err(e) => return Err(e),
        };
        let runtime = Runtime::from_name(runtime_name.as_str());
        let i = self.instances.len();
        self.instances.push(InstanceWrapper::new(handle, application_name, runtime));
        registry_insert(&mut self.instance_registry, handle, i);
        assert(forall|t: Target| #[trigger] old(self).owner(t) is Some ==> self.owner(t) is Some);
        assert(forall|t: Target|
            #![trigger self.position(t)]
            old(self).position(t) is Some && self.position(t) == old(self).position(t) ==> self.owner(t)
                == old(self).owner(t));
        Ok(i)
    }

    /// Records what a system was obtained with, once the runtime below
    /// answered the query with `forwarded` and `system_id`. A failure code
    /// from below is passed on; a repeated id overwrites.
    pub fn xr_get_system(&mut self, instance: u64, form_factor: i32, forwarded: i32, system_id: u64) -> (r:
        Result<i32, LayerError>)
        requires
            old(self).wf(),
        ensures
            final(self).wf(),
            final(self).keeps(old(self)),
            old(self).spec_enter(Target::Instance(instance)) matches Err(e) ==> r == Err::<
                i32,
                LayerError,
            >(e) && *final(self) == *old(self),
            old(self).spec_enter(Target::Instance(instance)) is Ok && forwarded < 0 ==> r == Err::<
                i32,
                LayerError,
            >(LayerError::Runtime(forwarded)) && *final(self) == *old(self),
            old(self).spec_enter(Target::Instance(instance)) is Ok && forwarded >= 0 ==> {
                let i = old(self).instance_index(instance);
                &&& r == Ok::<i32, LayerError>(forwarded)
                &&& final(self).same_except_instances(old(self))
                &&& final(self).other_instances_same(old(self), i)
                &&& final(self).instances@[i].system_recorded(
                    &old(self).instances@[i],
                    system_id,
                    SystemMeta { form_factor },
                )
            },
    {
        if let Err(e) = self.enter(Target::Instance(instance)) {
            return Err(e);
        }
        if forwarded < 0 {
            return Err(LayerError::Runtime(forwarded));
        }
        let i = registry_get(&self.instance_registry, instance).unwrap();
        self.instances[i].xr_get_system(system_id, form_factor);
        assert(forall|t: Target| #[trigger] old(self).owner(t) == self.owner(t));
        Ok(forwarded)
    }
}


impl Layer {
    /// Registers a session that the runtime below created under this
    /// instance, once it answered with `forwarded` and the handle
    /// `session`. The session starts unattached. A failure code from below
    /// is passed on. A handle value that is still registered (the runtime
    /// below reused it after the earlier session was destroyed) now leads
    /// to the new session.
    pub fn xr_create_session(&mut self, instance: u64, forwarded: i32, session: u64) -> (r: Result<
        i32,
        LayerError,
    >)
        requires
            old(self).wf(),
        ensures
            final(self).wf(),
            final(self).keeps(old(self)),
            old(self).spec_enter(Target::Instance(instance)) matches Err(e) ==> r == Err::<
                i32,
                LayerError,
            >(e) && *final(self) == *old(self),
            old(self).spec_enter(Target::Instance(instance)) is Ok && forwarded < 0 ==> r == Err::<
                i32,
                LayerError,
            >(LayerError::Runtime(forwarded)) && *final(self) == *old(self),
            old(self).spec_enter(Target::Instance(instance)) is Ok && forwarded >= 0 ==> {
                let i = old(self).instance_index(instance);
                let s = old(self).sessions@.len() as int;
                &&& r == Ok::<i32, LayerError>(SUCCESS)
                &&& final(self).session_entries() == old(self).session_entries().insert(
                    session,
                    s as usize,
                )
                &&& final(self).sessions@.len() == s + 1
                &&& final(self).session_index(session) == s
                &&& forall|j: int| 0 <= j < s ==> #[trigger] final(self).sessions@[j] == old(self).sessions@[j]
                &&& final(self).sessions@[s].handle == session
                &&& final(self).sessions@[s].instance == i
                &&& final(self).sessions@[s].inner is None
                &&& final(self).other_instances_same(old(self), i)
                &&& final(self).instances@[i].session_entries() == old(self).instances@[i].session_entries().insert(
                    session,
                    s as usize,
                )
                &&& final(self).instances@[i].same_but_sessions(&old(self).instances@[i])
                &&& final(self).instance_registry == old(self).instance_registry
                &&& final(self).action_set_arena == old(self).action_set_arena
                &&& final(self).action_sets == old(self).action_sets
                &&& final(self).action_arena == old(self).action_arena
                &&& final(self).actions == old(self).actions
            },
    {
        if let Err(e) = self.enter(Target::Instance(instance)) {
            return Err(e);
        }
        if forwarded < 0 {
            return Err(LayerError::Runtime(forwarded));
        }
        let i = registry_get(&self.instance_registry, instance).unwrap();
        let s = self.sessions.len();
        self.sessions.push(SessionWrapper { handle: session, instance: i, inner: None });
        registry_insert(&mut self.session_registry, session, s);
        self.instances[i].xr_create_session(session, s);
        assert(forall|t: Target| #[trigger] old(self).owner(t) is Some ==> self.owner(t) is Some);
        assert(forall|t: Target|
            #![trigger self.position(t)]
            old(self).position(t) is Some && self.position(t) == old(self).position(t) ==> self.owner(t)
                == old(self).owner(t));
        Ok(SUCCESS)
    }

    /// Creates an action set under an instance and mints its handle; the
    /// input-abstraction set `input_set` was made for it with the same name
    /// and priority. Fails when the name is not a nul-terminated UTF-8 text,
    /// or when the arena is full.
    pub fn xr_create_action_set(
        &mut self,
        instance: u64,
        name: &[i8],
        priority: u32,
        input_set: u64,
    ) -> (r: Result<u64, LayerError>)
        requires
            old(self).wf(),
        ensures
            final(self).wf(),
            final(self).keeps(old(self)),
            old(self).spec_enter(Target::Instance(instance)) matches Err(e) ==> r == Err::<
                u64,
                LayerError,
            >(e) && *final(self) == *old(self),
            old(self).spec_enter(Target::Instance(instance)) is Ok && c_text(name@) is None ==> r
                == Err::<u64, LayerError>(LayerError::ValidationFailure) && *final(self) == *old(self),
            old(self).spec_enter(Target::Instance(instance)) is Ok && c_text(name@) is Some
                && old(self).action_sets@.len() >= u32::MAX ==> r == Err::<u64, LayerError>(
                LayerError::LimitReached,
            ) && *final(self) == *old(self),
            old(self).spec_enter(Target::Instance(instance)) is Ok && c_text(name@) is Some
                && old(self).action_sets@.len() < u32::MAX ==> {
                let n = old(self).action_sets@.len() as int;
                &&& r matches Ok(h) && !old(self).set_entries().contains_key(h)
                    && final(self).set_entries() == old(self).set_entries().insert(h, n as usize)
                &&& final(self).action_sets@.len() == n + 1
                &&& forall|j: int| 0 <= j < n ==> #[trigger] final(self).action_sets@[j] == old(self).action_sets@[j]
                &&& final(self).action_sets@[n].instance == old(self).instance_index(instance)
                &&& final(self).action_sets@[n].name@ == c_text(name@).unwrap()
                &&& final(self).action_sets@[n].priority == priority
                &&& final(self).action_sets@[n].input_set == input_set
                &&& final(self).instances == old(self).instances
                &&& final(self).instance_registry == old(self).instance_registry
                &&& final(self).session_registry == old(self).session_registry
                &&& final(self).sessions == old(self).sessions
                &&& final(self).action_arena == old(self).action_arena
                &&& final(self).actions == old(self).actions
            },
    {
        if let Err(e) = self.enter(Target::Instance(instance)) {
            return Err(e);
        }
        let name = match str_from_bytes_until_nul(name) {
            Ok(s) => s,
            Err(e) => return Err(e),
        };
        if self.action_sets.len() >= 0xffff_ffffusize {
            return Err(LayerError::LimitReached);
        }
        let i = registry_get(&self.instance_registry, instance).unwrap();
        let n = self.action_sets.len();
        self.action_sets.push(LayerActionSet { instance: i, name, priority, input_set });
        let ghost before = self.set_entries();
        let h = arena_insert(&mut self.action_set_arena, n);
        proof {
            lemma_insert_keeps_wf(before, h, n);
            assert forall|k: int| 0 <= k < self.sessions@.len() implies #[trigger] self.sessions@[k].attached_within(
                self.action_sets@.len(),
            ) by {
                assert(old(self).sessions@[k].attached_within(old(self).action_sets@.len()));
            }
        }
        assert(forall|t: Target| #[trigger] old(self).owner(t) is Some ==> self.owner(t) == old(self).owner(t));
        Ok(h)
    }

    /// Every binding names a live action.
    pub open spec fn all_actions_live(&self, bindings: Seq<(u64, u64)>) -> bool {
        forall|j: int| 0 <= j < bindings.len() ==> #[trigger] self.action_entries().contains_key(bindings[j].0)
    }

    /// Suggested (action handle, binding path) pairs, with each action
    /// resolved to its position.
    pub open spec fn spec_bindings(&self, bindings: Seq<(u64, u64)>) -> Seq<SimpleBinding> {
        Seq::new(
            bindings.len(),
            |j: int| SimpleBinding { action: self.action_entries()[bindings[j].0], binding: bindings[j].1 },
        )
    }

    /// Resolves the actions of suggested bindings, in order.
    fn resolve_bindings(&self, bindings: &Vec<(u64, u64)>) -> (r: Result<Vec<SimpleBinding>, LayerError>)
        requires
            self.wf(),
        ensures
            !self.all_actions_live(bindings@) ==> r == Err::<Vec<SimpleBinding>, LayerError>(
                LayerError::HandleInvalid,
            ),
            self.all_actions_live(bindings@) ==> (r matches Ok(v) && v@ == self.spec_bindings(bindings@)),
    {
        let mut out: Vec<SimpleBinding> = Vec::new();
        let mut j: usize = 0;
        while j < bindings.len()
            invariant
                self.wf(),
                j <= bindings@.len(),
                forall|k: int| 0 <= k < j ==> #[trigger] self.action_entries().contains_key(bindings@[k].0),
                out@ =~= self.spec_bindings(bindings@).take(j as int),
            decreases bindings@.len() - j,
        {
            let (action, binding) = bindings[j];
            match arena_get(&self.action_arena, action) {
                None => return Err(LayerError::HandleInvalid),
                Some(a) => out.push(SimpleBinding { action: a, binding }),
            }
            j += 1;
        }
        assert(self.spec_bindings(bindings@).take(bindings@.len() as int) =~= self.spec_bindings(bindings@));
        Ok(out)
    }

    /// Whether `xr_create_action_set` would succeed on these arguments;
    /// the same errors, in the same order. Changes nothing.
    pub fn check_create_action_set(&self, instance: u64, name: &[i8]) -> (r: Result<(), LayerError>)
        requires
            self.wf(),
        ensures
            self.spec_enter(Target::Instance(instance)) matches Err(e) ==> r == Err::<(), LayerError>(e),
            self.spec_enter(Target::Instance(instance)) is Ok && c_text(name@) is None ==> r == Err::<
                (),
                LayerError,
            >(LayerError::ValidationFailure),
            self.spec_enter(Target::Instance(instance)) is Ok && c_text(name@) is Some
                && self.action_sets@.len() >= u32::MAX ==> r == Err::<(), LayerError>(
                LayerError::LimitReached,
            ),
            self.spec_enter(Target::Instance(instance)) is Ok && c_text(name@) is Some
                && self.action_sets@.len() < u32::MAX ==> r == Ok::<(), LayerError>(()),
    {
        if let Err(e) = self.enter(Target::Instance(instance)) {
            return Err(e);
        }
        if let Err(e) = str_from_bytes_until_nul(name) {
            return Err(e);
        }
        if self.action_sets.len() >= 0xffff_ffffusize {
            return Err(LayerError::LimitReached);
        }
        Ok(())
    }

    /// Records, for an interaction profile, its path in the
    /// input-abstraction runtime's path space (`input_profile`, or none when
    /// that runtime could not resolve it) and the simple bindings suggested
    /// for it, as (action handle, binding path) pairs. A later suggestion
    /// for the same profile replaces the earlier one.
    pub fn xr_suggest_interaction_profile_bindings(
        &mut self,
        instance: u64,
        profile: u64,
        input_profile: Option<u64>,
        bindings: &Vec<(u64, u64)>,
    ) -> (r: Result<i32, LayerError>)
        requires
            old(self).wf(),
        ensures
            final(self).wf(),
            final(self).keeps(old(self)),
            old(self).spec_enter(Target::Instance(instance)) matches Err(e) ==> r == Err::<
                i32,
                LayerError,
            >(e) && *final(self) == *old(self),
            old(self).spec_enter(Target::Instance(instance)) is Ok && input_profile is None ==> r
                == Err::<i32, LayerError>(LayerError::PathUnsupported) && *final(self) == *old(self),
            old(self).spec_enter(Target::Instance(instance)) is Ok && input_profile is Some
                && !old(self).all_actions_live(bindings@) ==> r == Err::<i32, LayerError>(
                LayerError::HandleInvalid,
            ) && *final(self) == *old(self),
            old(self).spec_enter(Target::Instance(instance)) is Ok && input_profile is Some
                && old(self).all_actions_live(bindings@) ==> {
                let i = old(self).instance_index(instance);
                &&& r == Ok::<i32, LayerError>(SUCCESS)
                &&& final(self).instances@[i].profile(profile) == input_profile
                &&& final(self).instances@[i].bindings(profile) == Some(old(self).spec_bindings(bindings@))
                &&& forall|q: u64|
                    q != profile ==> #[trigger] final(self).instances@[i].suggestion(q) == old(self).instances@[i].suggestion(q)
                &&& final(self).instances@[i].same_but_suggestions(&old(self).instances@[i])
                &&& final(self).other_instances_same(old(self), i)
                &&& final(self).same_except_instances(old(self))
            },
    {
        if let Err(e) = self.enter(Target::Instance(instance)) {
            return Err(e);
        }
        let p = match input_profile {
            Some(p) => p,
            None => return Err(LayerError::PathUnsupported),
        };
        let resolved = match self.resolve_bindings(bindings) {
            Ok(v) => v,
            Err(e) => return Err(e),
        };
        let i = registry_get(&self.instance_registry, instance).unwrap();
        let r = self.instances[i].xr_suggest_interaction_profile_bindings(profile, Some(p), resolved);
        assert(forall|t: Target| #[trigger] old(self).owner(t) == self.owner(t));
        r
    }
}


} // verus!
