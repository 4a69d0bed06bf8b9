//! Actions and sessions: creating actions, attaching action sets to a
//! session once, synchronizing them, and resolving state queries.
use vstd::prelude::*;
use crate::action::{
    NULL_PATH,
    inputs_needed, spec_action_kind, spec_inputs_needed, spec_resolve, ActionKind, LayerAction,
    SubActions,
};
use crate::arena::{arena_get, arena_insert, lemma_insert_keeps_wf};
use crate::codes::{LayerError, SUCCESS};
use crate::layer::{Layer, Target};
use crate::registry::registry_get;
use crate::session::InnerSession;
use std::collections::HashMap;
use crate::session::map_get;
use crate::text::{c_text, str_from_bytes_until_nul};

verus! {

/// One entry of a sync request: an action set, and a sub-action path that
/// must be null.
#[derive(Clone, Copy, Debug, PartialEq, Eq, Structural)]
pub struct ActiveActionSet {
    pub action_set: u64,
    pub subaction_path: u64,
}

/// What to synchronize: the input-abstraction session and its action sets.
#[derive(Debug)]
pub struct SyncRequest {
    pub input_session: u64,
    pub input_sets: Vec<u64>,
}

/// Where a state query reads from: an input-abstraction session and action.
#[derive(Clone, Copy, Debug, PartialEq, Eq, Structural)]
pub struct StateSource {
    pub input_session: u64,
    pub input_action: u64,
}

impl Layer {
    /// Every handle leads to a live action set.
    pub open spec fn all_sets_live(&self, handles: Seq<u64>) -> bool {
        forall|j: int| 0 <= j < handles.len() ==> #[trigger] self.set_entries().contains_key(handles[j])
    }

    /// The position of the session a valid session handle leads to.
    pub open spec fn session_index(&self, h: u64) -> int {
        self.session_entries()[h] as int
    }

    /// Whether the session a valid handle leads to has its sets attached.
    pub open spec fn is_attached(&self, h: u64) -> bool {
        self.sessions@[self.session_index(h)].inner is Some
    }

    /// Creates an action in an action set and mints its handle. The caller
    /// made `inputs` for it in the input-abstraction set: as many as
    /// `inputs_needed` gives for its type and number of sub-action paths.
    /// Fails on a name that is not a nul-terminated UTF-8 text, an unknown
    /// action type, a wrong number of inputs, or a full arena.
    pub fn xr_create_action(
        &mut self,
        action_set: u64,
        name: &[i8],
        action_type: i32,
        subaction_paths: &Vec<u64>,
        inputs: &Vec<u64>,
    ) -> (r: Result<u64, LayerError>)
        requires
            old(self).wf(),
        ensures
            final(self).wf(),
            final(self).keeps(old(self)),
            old(self).spec_enter(Target::ActionSet(action_set)) matches Err(e) ==> r == Err::<
                u64,
                LayerError,
            >(e) && *final(self) == *old(self),
            old(self).spec_enter(Target::ActionSet(action_set)) is Ok && (c_text(name@) is None
                || spec_action_kind(action_type) is None || inputs@.len() != spec_inputs_needed(
                spec_action_kind(action_type).unwrap(),
                subaction_paths@.len(),
            )) ==> r == Err::<u64, LayerError>(LayerError::ValidationFailure) && *final(self)
                == *old(self),
            old(self).spec_enter(Target::ActionSet(action_set)) is Ok && c_text(name@) is Some
                && spec_action_kind(action_type) is Some && inputs@.len() == spec_inputs_needed(
                spec_action_kind(action_type).unwrap(),
                subaction_paths@.len(),
            ) && old(self).actions@.len() >= u32::MAX ==> r == Err::<u64, LayerError>(
                LayerError::LimitReached,
            ) && *final(self) == *old(self),
            old(self).spec_enter(Target::ActionSet(action_set)) is Ok && c_text(name@) is Some
                && spec_action_kind(action_type) is Some && inputs@.len() == spec_inputs_needed(
                spec_action_kind(action_type).unwrap(),
                subaction_paths@.len(),
            ) && old(self).actions@.len() < u32::MAX ==> {
                let n = old(self).actions@.len() as int;
                let set = old(self).set_entries()[action_set] as int;
                &&& r matches Ok(h) && !old(self).action_entries().contains_key(h)
                    && final(self).action_entries() == old(self).action_entries().insert(h, n as usize)
                &&& final(self).actions@.len() == n + 1
                &&& forall|j: int| 0 <= j < n ==> #[trigger] final(self).actions@[j] == old(self).actions@[j]
                &&& final(self).actions@[n].action_set == set
                &&& final(self).actions@[n].instance == old(self).action_sets@[set].instance
                &&& final(self).actions@[n].name@ == c_text(name@).unwrap()
                &&& final(self).actions@[n].sub_actions.built_from(
                    spec_action_kind(action_type).unwrap(),
                    subaction_paths@,
                    inputs@,
                )
                &&& final(self).instances == old(self).instances
                &&& final(self).instance_registry == old(self).instance_registry
                &&& final(self).session_registry == old(self).session_registry
                &&& final(self).sessions == old(self).sessions
                &&& final(self).action_set_arena == old(self).action_set_arena
                &&& final(self).action_sets == old(self).action_sets
            },
    {
        if let Err(e) = self.enter(Target::ActionSet(action_set)) {
            return Err(e);
        }
        let name = match str_from_bytes_until_nul(name) {
            Ok(s) => s,
            Err(e) => return Err(e),
        };
        let kind = match ActionKind::from_raw(action_type) {
            Some(k) => k,
            None => return Err(LayerError::ValidationFailure),
        };
        if inputs.len() != inputs_needed(kind, subaction_paths.len()) {
            return Err(LayerError::ValidationFailure);
        }
        if self.actions.len() >= 0xffff_ffffusize {
            return Err(LayerError::LimitReached);
        }
        let set = arena_get(&self.action_set_arena, action_set).unwrap();
        let instance = self.action_sets[set].instance;
        let sub_actions = SubActions::new(kind, subaction_paths, inputs);
        let n = self.actions.len();
        self.actions.push(LayerAction { instance, action_set: set, name, sub_actions });
        let ghost before = self.action_entries();
        let h = arena_insert(&mut self.action_arena, n);
        proof {
            lemma_insert_keeps_wf(before, h, n);
        }
        assert(forall|t: Target| #[trigger] old(self).owner(t) is Some ==> self.owner(t) == old(self).owner(t));
        Ok(h)
    }

    /// Whether `xr_create_action` would succeed on these arguments, given
    /// the right number of inputs; the same errors, in the same order.
    /// Changes nothing.
    pub fn check_create_action(&self, action_set: u64, name: &[i8], action_type: i32) -> (r: Result<
        (),
        LayerError,
    >)
        requires
            self.wf(),
        ensures
            self.spec_enter(Target::ActionSet(action_set)) matches Err(e) ==> r == Err::<(), LayerError>(e),
            self.spec_enter(Target::ActionSet(action_set)) is Ok && (c_text(name@) is None
                || spec_action_kind(action_type) is None) ==> r == Err::<(), LayerError>(
                LayerError::ValidationFailure,
            ),
            self.spec_enter(Target::ActionSet(action_set)) is Ok && c_text(name@) is Some
                && spec_action_kind(action_type) is Some && self.actions@.len() >= u32::MAX ==> r
                == Err::<(), LayerError>(LayerError::LimitReached),
            self.spec_enter(Target::ActionSet(action_set)) is Ok && c_text(name@) is Some
                && spec_action_kind(action_type) is Some && self.actions@.len() < u32::MAX ==> r
                == Ok::<(), LayerError>(()),
    {
        if let Err(e) = self.enter(Target::ActionSet(action_set)) {
            return Err(e);
        }
        if let Err(e) = str_from_bytes_until_nul(name) {
            return Err(e);
        }
        if ActionKind::from_raw(action_type).is_none() {
            return Err(LayerError::ValidationFailure);
        }
        if self.actions.len() >= 0xffff_ffffusize {
            return Err(LayerError::LimitReached);
        }
        Ok(())
    }

    /// Resolves action-set handles through the arena: the table from each
    /// handle to the position of its set, or a handle error.
    fn resolve_sets(&self, handles: &Vec<u64>) -> (r: Result<HashMap<u64, usize>, LayerError>)
        requires
            self.wf(),
        ensures
            !self.all_sets_live(handles@) ==> r is Err && r->Err_0 == LayerError::HandleInvalid,
            self.all_sets_live(handles@) ==> (r matches Ok(table) && forall|h: u64| #[trigger]
                map_get(table@, h) == if handles@.contains(h) {
                    Some(self.set_entries()[h])
                } else {
                    None
                }),
    {
        let mut table: HashMap<u64, usize> = HashMap::new();
        let mut j: usize = 0;
        while j < handles.len()
            invariant
                self.wf(),
                j <= handles@.len(),
                forall|k: int| 0 <= k < j ==> #[trigger] self.set_entries().contains_key(handles@[k]),
                forall|h: u64| #[trigger]
                    map_get(table@, h) == if handles@.take(j as int).contains(h) {
                        Some(self.set_entries()[h])
                    } else {
                        None
                    },
            decreases handles@.len() - j,
        {
            let h = handles[j];
            match arena_get(&self.action_set_arena, h) {
                None => return Err(LayerError::HandleInvalid),
                Some(set) => {
                    let ghost before = table@;
                    table.insert(h, set);
                    assert(table@ == before.insert(h, set));
                    assert(handles@.take(j + 1) =~= handles@.take(j as int).push(h));
                    assert forall|x: u64| #[trigger]
                        map_get(table@, x) == if handles@.take(j + 1).contains(x) {
                            Some(self.set_entries()[x])
                        } else {
                            None
                        } by {
                        assert(map_get(before, x) == if handles@.take(j as int).contains(x) {
                            Some(self.set_entries()[x])
                        } else {
                            None
                        });
                        if x != h {
                            if handles@.take(j + 1).contains(x) {
                                let k = choose|k: int|
                                    0 <= k < j + 1 && #[trigger] handles@.take(j + 1)[k] == x;
                                assert(handles@.take(j as int)[k] == x);
                            }
                        } else {
                            assert(handles@.take(j + 1)[j as int] == h);
                        }
                    }
                },
            }
            j += 1;
        }
        assert(handles@.take(handles@.len() as int) =~= handles@);
        Ok(table)
    }

    /// Checks that a session may have action sets attached, and names the
    /// input-abstraction sets to build its application instance from, in
    /// the order given. Changes nothing.
    pub fn attach_plan(&self, session: u64, handles: &Vec<u64>) -> (r: Result<Vec<u64>, LayerError>)
        requires
            self.wf(),
        ensures
            self.spec_enter(Target::Session(session)) matches Err(e) ==> r == Err::<
                Vec<u64>,
                LayerError,
            >(e),
            self.spec_enter(Target::Session(session)) is Ok && self.is_attached(session) ==> r
                == Err::<Vec<u64>, LayerError>(LayerError::ActionSetsAlreadyAttached),
            self.spec_enter(Target::Session(session)) is Ok && !self.is_attached(session)
                && !self.all_sets_live(handles@) ==> r == Err::<Vec<u64>, LayerError>(
                LayerError::HandleInvalid,
            ),
            self.spec_enter(Target::Session(session)) is Ok && !self.is_attached(session)
                && self.all_sets_live(handles@) ==> (r matches Ok(ids) && ids@ == Seq::new(
                handles@.len(),
                |j: int| self.action_sets@[self.set_entries()[handles@[j]] as int].input_set,
            )),
    {
        if let Err(e) = self.enter(Target::Session(session)) {
            return Err(e);
        }
        let s = registry_get(&self.session_registry, session).unwrap();
        if self.sessions[s].inner.is_some() {
            return Err(LayerError::ActionSetsAlreadyAttached);
        }
        if let Err(e) = self.resolve_sets(handles) {
            return Err(e);
        }
        let mut ids: Vec<u64> = Vec::new();
        let mut j: usize = 0;
        while j < handles.len()
            invariant
                self.wf(),
                j <= handles@.len(),
                self.all_sets_live(handles@),
                ids@ =~= Seq::new(
                    j as nat,
                    |k: int| self.action_sets@[self.set_entries()[handles@[k]] as int].input_set,
                ),
            decreases handles@.len() - j,
        {
            assert(self.set_entries().contains_key(handles@[j as int]));
            let set = arena_get(&self.action_set_arena, handles[j]).unwrap();
            ids.push(self.action_sets[set].input_set);
            j += 1;
        }
        Ok(ids)
    }

    /// The outcome of attaching action sets to a session.
    pub open spec fn spec_attach(&self, session: u64, handles: Seq<u64>) -> Result<i32, LayerError> {
        match self.spec_enter(Target::Session(session)) {
            Err(e) => Err(e),
            Ok(_) => if self.is_attached(session) {
                Err(LayerError::ActionSetsAlreadyAttached)
            } else if !self.all_sets_live(handles) {
                Err(LayerError::HandleInvalid)
            } else {
                Ok(SUCCESS)
            },
        }
    }

    /// This state is an earlier one in which a session got attached to
    /// `handles` and to the input-abstraction session `input_session`.
    pub open spec fn attach_applied(&self, earlier: &Layer, session: u64, handles: Seq<u64>, input_session: u64) -> bool {
        let s = earlier.session_index(session);
        &&& self.sessions@.len() == earlier.sessions@.len()
        &&& forall|k: int|
            0 <= k < earlier.sessions@.len() && k != s ==> #[trigger] self.sessions@[k]
                == earlier.sessions@[k]
        &&& self.sessions@[s].handle == earlier.sessions@[s].handle
        &&& self.sessions@[s].instance == earlier.sessions@[s].instance
        &&& (self.sessions@[s].inner matches Some(inner) && inner.input_session == input_session)
        &&& forall|h: u64| #[trigger]
            self.sessions@[s].attached_set(h) == if handles.contains(h) {
                Some(earlier.set_entries()[h])
            } else {
                None
            }
        &&& self.instances == earlier.instances
        &&& self.instance_registry == earlier.instance_registry
        &&& self.session_registry == earlier.session_registry
        &&& self.action_set_arena == earlier.action_set_arena
        &&& self.action_sets == earlier.action_sets
        &&& self.action_arena == earlier.action_arena
        &&& self.actions == earlier.actions
    }

    /// Attaches action sets to a session, exactly once: the session's
    /// attached table becomes the given handles with their sets, bound to
    /// the input-abstraction session `input_session`. A second attach, or
    /// any handle that leads to no set, fails and changes nothing.
    pub fn xr_attach_session_action_sets(
        &mut self,
        session: u64,
        handles: &Vec<u64>,
        input_session: u64,
    ) -> (r: Result<i32, LayerError>)
        requires
            old(self).wf(),
        ensures
            final(self).wf(),
            final(self).keeps(old(self)),
            r == old(self).spec_attach(session, handles@),
            r is Err ==> *final(self) == *old(self),
            r is Ok ==> final(self).attach_applied(old(self), session, handles@, input_session),
    {
        if let Err(e) = self.enter(Target::Session(session)) {
            return Err(e);
        }
        let s = registry_get(&self.session_registry, session).unwrap();
        if self.sessions[s].inner.is_some() {
            return Err(LayerError::ActionSetsAlreadyAttached);
        }
        let table = match self.resolve_sets(handles) {
            Ok(t) => t,
            Err(e) => return Err(e),
        };
        let ghost tv = table@;
        assert forall|h: u64| #[trigger] tv.contains_key(h) implies tv[h] < self.action_sets@.len() by {
            assert(map_get(tv, h) is Some);
            assert(handles@.contains(h));
            let k = choose|k: int| 0 <= k < handles@.len() && handles@[k] == h;
            assert(self.set_entries().contains_key(handles@[k]));
        }
        self.sessions[s].inner = Some(InnerSession { input_session, action_sets: table });
        assert forall|k: int| 0 <= k < self.sessions@.len() implies #[trigger] self.sessions@[k].attached_within(
            self.action_sets@.len(),
        ) by {
            if k != s {
                assert(old(self).sessions@[k].attached_within(old(self).action_sets@.len()));
            }
        }
        assert(forall|t: Target| #[trigger] old(self).owner(t) == self.owner(t));
        Ok(SUCCESS)
    }
}


impl Layer {
    /// The attached set an entry of a sync request names, in a session.
    pub open spec fn synced_set(&self, session: u64, entry: ActiveActionSet) -> Option<usize> {
        self.sessions@[self.session_index(session)].attached_set(entry.action_set)
    }

    /// The input-abstraction session of an attached session.
    pub open spec fn input_session_of(&self, session: u64) -> u64 {
        self.sessions@[self.session_index(session)].inner.unwrap().input_session
    }

    /// Whether a sync request breaks the one global sync domain: the
    /// session may be synced, and, going through the entries in order, an
    /// entry carries a sub-action path before any entry names a set that is
    /// not attached. Such a request is outside what `xr_sync_actions`
    /// accepts; the call is to be aborted.
    pub open spec fn sync_aborts(&self, session: u64, active: Seq<ActiveActionSet>) -> bool {
        &&& self.spec_enter(Target::Session(session)) is Ok
        &&& self.is_attached(session)
        &&& exists|j: int|
            0 <= j < active.len() && #[trigger] active[j].subaction_path != NULL_PATH && forall|k: int|
                0 <= k < j ==> #[trigger] self.synced_set(session, active[k]) is Some
    }

    /// Tests a sync request for a sub-action path that breaks the one
    /// global sync domain; see `sync_aborts`.
    pub fn sync_would_abort(&self, session: u64, active: &Vec<ActiveActionSet>) -> (r: bool)
        requires
            self.wf(),
        ensures
            r == self.sync_aborts(session, active@),
    {
        if self.enter(Target::Session(session)).is_err() {
            return false;
        }
        let s = registry_get(&self.session_registry, session).unwrap();
        if self.sessions[s].inner.is_none() {
            return false;
        }
        let mut j: usize = 0;
        while j < active.len()
            invariant
                self.wf(),
                self.spec_enter(Target::Session(session)) is Ok,
                self.is_attached(session),
                s == self.session_index(session),
                s < self.sessions@.len(),
                j <= active@.len(),
                forall|k: int| 0 <= k < j ==> #[trigger] active@[k].subaction_path == NULL_PATH,
                forall|k: int| 0 <= k < j ==> #[trigger] self.synced_set(session, active@[k]) is Some,
            decreases active@.len() - j,
        {
            if active[j].subaction_path != NULL_PATH {
                return true;
            }
            if self.sessions[s].find_attached(active[j].action_set).is_none() {
                assert forall|i: int|
                    0 <= i < active@.len() && #[trigger] active@[i].subaction_path != NULL_PATH
                        implies !(forall|k: int|
                    0 <= k < i ==> #[trigger] self.synced_set(session, active@[k]) is Some) by {
                    assert(i > j);
                    assert(self.synced_set(session, active@[j as int]) is None);
                }
                return false;
            }
            j += 1;
        }
        false
    }

    /// Resolves a sync request against a session's attached sets: the
    /// input-abstraction session and, in order, the sets to synchronize.
    /// Fails when the session is not attached, or when an entry names a set
    /// that is not attached. Every entry must carry the null sub-action
    /// path; a request that `sync_aborts` is not accepted.
    pub fn xr_sync_actions(&self, session: u64, active: &Vec<ActiveActionSet>) -> (r: Result<
        SyncRequest,
        LayerError,
    >)
        requires
            self.wf(),
            !self.sync_aborts(session, active@),
        ensures
            self.spec_enter(Target::Session(session)) matches Err(e) ==> r is Err && r->Err_0 == e,
            self.spec_enter(Target::Session(session)) is Ok && !self.is_attached(session) ==> r is Err
                && r->Err_0 == LayerError::ActionSetNotAttached,
            self.spec_enter(Target::Session(session)) is Ok && self.is_attached(session) && (exists|
                j: int,
            | 0 <= j < active@.len() && #[trigger] self.synced_set(session, active@[j]) is None)
                ==> r is Err && r->Err_0 == LayerError::ActionSetNotAttached,
            self.spec_enter(Target::Session(session)) is Ok && self.is_attached(session) && (forall|
                j: int,
            | 0 <= j < active@.len() ==> #[trigger] self.synced_set(session, active@[j]) is Some)
                ==> r is Ok && r->Ok_0.input_session == self.input_session_of(session)
                && r->Ok_0.input_sets@ == Seq::new(
                active@.len(),
                |j: int| self.action_sets@[self.synced_set(session, active@[j]).unwrap() as int].input_set,
            ),
    {
        if let Err(e) = self.enter(Target::Session(session)) {
            return Err(e);
        }
        let s = registry_get(&self.session_registry, session).unwrap();
        let input_session = match &self.sessions[s].inner {
            Some(inner) => inner.input_session,
            None => return Err(LayerError::ActionSetNotAttached),
        };
        let mut input_sets: Vec<u64> = Vec::new();
        let mut j: usize = 0;
        while j < active.len()
            invariant
                self.wf(),
                self.spec_enter(Target::Session(session)) is Ok,
                self.is_attached(session),
                s == self.session_index(session),
                s < self.sessions@.len(),
                input_session == self.input_session_of(session),
                j <= active@.len(),
                input_sets@ =~= Seq::new(
                    j as nat,
                    |k: int| self.action_sets@[self.synced_set(session, active@[k]).unwrap() as int].input_set,
                ),
                forall|k: int| 0 <= k < j ==> #[trigger] self.synced_set(session, active@[k]) is Some,
            decreases active@.len() - j,
        {
            match self.sessions[s].find_attached(active[j].action_set) {
                None => {
                    assert(self.synced_set(session, active@[j as int]) is None);
                    return Err(LayerError::ActionSetNotAttached);
                },
                Some(set) => {
                    proof {
                        let inner = self.sessions@[s as int].inner.unwrap();
                        let key = active@[j as int].action_set;
                        assert(self.sessions@[s as int].attached_within(self.action_sets@.len()));
                        assert(inner.action_sets@.contains_key(key));
                    }
                    input_sets.push(self.action_sets[set].input_set);
                },
            }
            j += 1;
        }
        Ok(SyncRequest { input_session, input_sets })
    }

    /// Resolves a state query through an accessor of type `kind`: the
    /// session must be attached, the action handle live, the sub-action
    /// path declared (null for an action without paths), and the action's
    /// type that of the accessor, in that order.
    pub fn action_state_source(&self, session: u64, action: u64, sub_action_path: u64, kind: ActionKind) -> (r:
        Result<StateSource, LayerError>)
        requires
            self.wf(),
        ensures
            self.spec_enter(Target::Session(session)) matches Err(e) ==> r == Err::<
                StateSource,
                LayerError,
            >(e),
            self.spec_enter(Target::Session(session)) is Ok && !self.is_attached(session) ==> r
                == Err::<StateSource, LayerError>(LayerError::ActionSetNotAttached),
            self.spec_enter(Target::Session(session)) is Ok && self.is_attached(session)
                && !self.action_entries().contains_key(action) ==> r == Err::<StateSource, LayerError>(
                LayerError::HandleInvalid,
            ),
            self.spec_enter(Target::Session(session)) is Ok && self.is_attached(session)
                && self.action_entries().contains_key(action) ==> r == match spec_resolve(
                self.actions@[self.action_entries()[action] as int].sub_actions,
                sub_action_path,
                kind,
            ) {
                Ok(input) => Ok::<StateSource, LayerError>(
                    StateSource { input_session: self.input_session_of(session), input_action: input },
                ),
                Err(e) => Err::<StateSource, LayerError>(e),
            },
    {
        if let Err(e) = self.enter(Target::Session(session)) {
            return Err(e);
        }
        let s = registry_get(&self.session_registry, session).unwrap();
        let input_session = match &self.sessions[s].inner {
            Some(inner) => inner.input_session,
            None => return Err(LayerError::ActionSetNotAttached),
        };
        let a = match crate::arena::get(&self.action_arena, action) {
            Ok(a) => a,
            Err(e) => return Err(e),
        };
        match self.actions[a].sub_actions.resolve(sub_action_path, kind) {
            Ok(input) => Ok(StateSource { input_session, input_action: input }),
            Err(e) => Err(e),
        }
    }

    /// Resolves a boolean state query; see `action_state_source`.
    pub fn xr_get_action_state_boolean(&self, session: u64, action: u64, sub_action_path: u64) -> (r:
        Result<StateSource, LayerError>)
        requires
            self.wf(),
        ensures
            r == self.spec_action_state(session, action, sub_action_path, ActionKind::Boolean),
    {
        self.action_state_source(session, action, sub_action_path, ActionKind::Boolean)
    }

    /// Resolves a scalar state query; see `action_state_source`.
    pub fn xr_get_action_state_float(&self, session: u64, action: u64, sub_action_path: u64) -> (r:
        Result<StateSource, LayerError>)
        requires
            self.wf(),
        ensures
            r == self.spec_action_state(session, action, sub_action_path, ActionKind::Float),
    {
        self.action_state_source(session, action, sub_action_path, ActionKind::Float)
    }

    /// Resolves a two-axis state query; see `action_state_source`.
    pub fn xr_get_action_state_vector2f(&self, session: u64, action: u64, sub_action_path: u64) -> (r:
        Result<StateSource, LayerError>)
        requires
            self.wf(),
        ensures
            r == self.spec_action_state(session, action, sub_action_path, ActionKind::Vector2f),
    {
        self.action_state_source(session, action, sub_action_path, ActionKind::Vector2f)
    }

    /// The outcome of a state query, as `action_state_source` states it.
    pub open spec fn spec_action_state(&self, session: u64, action: u64, sub_action_path: u64, kind: ActionKind) -> Result<StateSource, LayerError> {
        match self.spec_enter(Target::Session(session)) {
            Err(e) => Err(e),
            Ok(_) => if !self.is_attached(session) {
                Err(LayerError::ActionSetNotAttached)
            } else if !self.action_entries().contains_key(action) {
                Err(LayerError::HandleInvalid)
            } else {
                match spec_resolve(
                    self.actions@[self.action_entries()[action] as int].sub_actions,
                    sub_action_path,
                    kind,
                ) {
                    Ok(input) => Ok(StateSource { input_session: self.input_session_of(session), input_action: input }),
                    Err(e) => Err(e),
                }
            },
        }
    }
}

} // verus!
