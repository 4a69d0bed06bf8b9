//! What holds across calls: handles keep resolving, attachment happens at
//! most once, state queries check path before type, and poison is sticky.
use vstd::prelude::*;
use crate::action::{spec_resolve, ActionKind, SubActions, NULL_PATH};
use crate::arena::{generation_of, lemma_handle_round_trip, lemma_stale_generation, slot_of, ArenaHandle};
use crate::codes::LayerError;
use crate::input_actions::ActiveActionSet;
use crate::layer::{Layer, Target};

verus! {

/// A handle that resolved keeps resolving in every later state, to an
/// object with the same owner as long as it leads to the same object; a
/// handle that resolves to nothing is reported invalid.
pub proof fn lemma_handles_keep_resolving(earlier: Layer, later: Layer, t: Target)
    requires
        later.keeps(&earlier),
    ensures
        earlier.owner(t) is Some ==> later.spec_enter(t) != Err::<(), LayerError>(
            LayerError::HandleInvalid,
        ),
        earlier.position(t) is Some && later.position(t) == earlier.position(t) ==> later.owner(t)
            == earlier.owner(t),
        later.owner(t) is None ==> later.spec_enter(t) == Err::<(), LayerError>(
            LayerError::HandleInvalid,
        ),
{
}

/// Once an attach has been applied to a session, any further attach to
/// it, whatever the handles, is refused as already attached.
pub proof fn lemma_attach_twice(
    before: Layer,
    after: Layer,
    session: u64,
    handles: Seq<u64>,
    input_session: u64,
    again: Seq<u64>,
)
    requires
        before.wf(),
        before.spec_attach(session, handles) is Ok,
        after.attach_applied(&before, session, handles, input_session),
    ensures
        after.spec_attach(session, again) == Err::<i32, LayerError>(
            LayerError::ActionSetsAlreadyAttached,
        ),
{
    assert(after.owner(Target::Session(session)) == before.owner(Target::Session(session)));
}

/// A sync request against a session without attached sets is always
/// accepted, whatever its entries, and `xr_sync_actions` then refuses it as
/// not attached.
pub proof fn lemma_unattached_sync(l: Layer, session: u64, active: Seq<ActiveActionSet>)
    requires
        !l.is_attached(session),
    ensures
        !l.sync_aborts(session, active),
{
}

/// A state query with a sub-action path the action was not declared with
/// (any path at all, for an action declared without paths) fails with
/// `PathInvalid`, whatever the accessor.
pub proof fn lemma_undeclared_path(sub: SubActions, path: u64, kind: ActionKind)
    requires
        (sub is Single && path != NULL_PATH) || (sub is Many && !sub.paths().contains(path)),
    ensures
        spec_resolve(sub, path, kind) == Err::<u64, LayerError>(LayerError::PathInvalid),
{
}

/// A state query with a declared path (or no path, for an action declared
/// without paths) succeeds exactly when the accessor has the action's type.
pub proof fn lemma_declared_path(sub: SubActions, path: u64, kind: ActionKind)
    requires
        (sub is Single && path == NULL_PATH) || (sub is Many && sub.paths().contains(path)),
    ensures
        spec_resolve(sub, path, kind) is Ok <==> kind == sub.kind(),
        kind != sub.kind() ==> spec_resolve(sub, path, kind) == Err::<u64, LayerError>(
            LayerError::ActionTypeMismatch,
        ),
{
}

/// A boolean query against a scalar action fails with a type mismatch for
/// every valid path.
pub proof fn lemma_boolean_on_scalar(sub: SubActions, path: u64)
    requires
        sub.kind() == ActionKind::Float,
        (sub is Single && path == NULL_PATH) || (sub is Many && sub.paths().contains(path)),
    ensures
        spec_resolve(sub, path, ActionKind::Boolean) == Err::<u64, LayerError>(
            LayerError::ActionTypeMismatch,
        ),
{
}

/// Once an instance is poisoned, every call against it or anything it
/// owns is refused as lost, in that state and in every later one in which
/// the handle still leads to the same object (a handle the runtime below
/// reissued for a new object leads elsewhere).
pub proof fn lemma_poison_is_sticky(poisoned: Layer, later: Layer, t: Target)
    requires
        poisoned.wf(),
        later.keeps(&poisoned),
        later.position(t) == poisoned.position(t),
        poisoned.owner(t) matches Some(i) && poisoned.instances@[i].poisoned,
    ensures
        poisoned.spec_enter(t) == Err::<(), LayerError>(LayerError::InstanceLost),
        later.spec_enter(t) == Err::<(), LayerError>(LayerError::InstanceLost),
{
    let i = poisoned.owner(t).unwrap();
    assert(0 <= i < poisoned.instances@.len()) by {
        match t {
            Target::Session(h) => assert(poisoned.sessions@[poisoned.session_entries()[h] as int].instance
                < poisoned.instances@.len()),
            Target::ActionSet(h) => assert(poisoned.action_sets@[poisoned.set_entries()[h] as int].instance
                < poisoned.instances@.len()),
            Target::Action(h) => assert(poisoned.actions@[poisoned.action_entries()[h] as int].instance
                < poisoned.instances@.len()),
            Target::Instance(h) => {},
        }
    }
    assert(later.owner(t) == poisoned.owner(t));
    assert(later.instances@[i].poisoned);
}

/// After a call against `t` aborted (the state changed only by poisoning
/// the owner of `t`), every call against anything that instance owns is
/// refused as lost, in every later state in which that handle still leads
/// to the same object.
pub proof fn lemma_abort_poisons_owner(before: Layer, after: Layer, later: Layer, t: Target, u: Target)
    requires
        before.wf(),
        before.owner(t) is Some,
        after.wf(),
        after.poisoned_only(&before, before.owner(t).unwrap()),
        before.owner(u) == before.owner(t),
        later.keeps(&after),
        later.position(u) == before.position(u),
    ensures
        later.spec_enter(u) == Err::<(), LayerError>(LayerError::InstanceLost),
{
    assert(after.owner(u) == before.owner(u));
    assert(after.position(u) == before.position(u));
    lemma_poison_is_sticky(after, later, u);
}

/// Every live action-set or action handle the layer issued carries a
/// nonzero generation, so decoding it (`ArenaHandle::from_bits`) gives the
/// slot and generation the arena allocated, and encoding those gives the
/// handle back.
pub proof fn lemma_issued_handles_decode(l: Layer, h: u64)
    requires
        l.wf(),
        l.set_entries().contains_key(h) || l.action_entries().contains_key(h),
    ensures
        generation_of(h) != 0,
        (ArenaHandle { slot: slot_of(h), generation: generation_of(h) }).spec_to_bits() == h,
{
    let any = ArenaHandle { slot: 0, generation: 1 };
    lemma_handle_round_trip(any, h);
}

/// A handle with the slot of a live action set but another generation
/// leads nowhere: a stale handle is reported invalid.
pub proof fn lemma_stale_action_set(l: Layer, live: u64, stale: u64)
    requires
        l.wf(),
        l.set_entries().contains_key(live),
        slot_of(stale) == slot_of(live),
        generation_of(stale) != generation_of(live),
    ensures
        l.spec_enter(Target::ActionSet(stale)) == Err::<(), LayerError>(LayerError::HandleInvalid),
{
    lemma_stale_generation(l.set_entries(), live, stale);
}

/// A handle with the slot of a live action but another generation leads
/// nowhere: a stale handle is reported invalid.
pub proof fn lemma_stale_action(l: Layer, live: u64, stale: u64)
    requires
        l.wf(),
        l.action_entries().contains_key(live),
        slot_of(stale) == slot_of(live),
        generation_of(stale) != generation_of(live),
    ensures
        l.spec_enter(Target::Action(stale)) == Err::<(), LayerError>(LayerError::HandleInvalid),
{
    lemma_stale_generation(l.action_entries(), live, stale);
}

} // verus!
