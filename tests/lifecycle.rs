use suinput_layer::action::{inputs_needed, ActionKind, BooleanState};
use suinput_layer::codes::LayerError;
use suinput_layer::input_actions::{ActiveActionSet, StateSource};
use suinput_layer::layer::{CallOutcome, Layer, Target};
use suinput_layer::negotiate::LAYER_NAME;
use suinput_layer::instance::{SimpleBinding, SystemMeta};

fn c(text: &str) -> Vec<i8> {
    let mut v: Vec<i8> = text.bytes().map(|b| b as i8).collect();
    v.push(0);
    v.resize(64, 0);
    v
}

fn with_instance(handle: u64) -> Layer {
    let mut layer = Layer::new();
    assert_eq!(layer.create_instance(handle, &c(LAYER_NAME), &c("demo"), &c("Oculus")), Ok(0));
    layer
}

#[test]
fn end_to_end_boolean_action() {
    let mut layer = with_instance(1);
    let set = layer.xr_create_action_set(1, &c("main"), 0, 100).unwrap();
    assert_eq!(inputs_needed(ActionKind::Boolean, 0), 1);
    let jump = layer.xr_create_action(set, &c("jump"), 1, &vec![], &vec![200]).unwrap();
    assert_eq!(layer.xr_create_session(1, 0, 7), Ok(0));
    assert_eq!(layer.attach_plan(7, &vec![set]), Ok(vec![100]));
    assert_eq!(layer.xr_attach_session_action_sets(7, &vec![set], 300), Ok(0));
    assert_eq!(
        layer.xr_attach_session_action_sets(7, &vec![set], 301),
        Err(LayerError::ActionSetsAlreadyAttached)
    );
    let sync = layer
        .xr_sync_actions(7, &vec![ActiveActionSet { action_set: set, subaction_path: 0 }])
        .unwrap();
    assert_eq!(sync.input_session, 300);
    assert_eq!(sync.input_sets, vec![100]);
    assert_eq!(
        layer.xr_get_action_state_boolean(7, jump, 0),
        Ok(StateSource { input_session: 300, input_action: 200 })
    );
    let state = BooleanState::from_input(true, false, 1234);
    assert!(state.enabled && state.state && !state.changed);
    assert_eq!(state.last_change_time, 1234);
    assert_eq!(layer.xr_get_action_state_boolean(7, jump, 42), Err(LayerError::PathInvalid));
}

#[test]
fn second_attach_keeps_table() {
    let mut layer = with_instance(1);
    let a = layer.xr_create_action_set(1, &c("a"), 0, 10).unwrap();
    let b = layer.xr_create_action_set(1, &c("b"), 1, 11).unwrap();
    layer.xr_create_session(1, 0, 7).unwrap();
    layer.xr_attach_session_action_sets(7, &vec![a], 300).unwrap();
    assert_eq!(
        layer.xr_attach_session_action_sets(7, &vec![b], 301),
        Err(LayerError::ActionSetsAlreadyAttached)
    );
    assert_eq!(layer.sessions[0].find_attached(a), Some(0));
    assert_eq!(layer.sessions[0].find_attached(b), None);
    assert_eq!(layer.sessions[0].inner.as_ref().unwrap().input_session, 300);
}

#[test]
fn attach_with_stale_handle_leaves_session_unattached() {
    let mut layer = with_instance(1);
    let a = layer.xr_create_action_set(1, &c("a"), 0, 10).unwrap();
    layer.xr_create_session(1, 0, 7).unwrap();
    let stale = a ^ (1u64 << 33);
    assert_eq!(layer.attach_plan(7, &vec![a, stale]), Err(LayerError::HandleInvalid));
    assert_eq!(
        layer.xr_attach_session_action_sets(7, &vec![a, stale], 300),
        Err(LayerError::HandleInvalid)
    );
    assert!(layer.sessions[0].inner.is_none());
    assert_eq!(layer.xr_attach_session_action_sets(7, &vec![a], 300), Ok(0));
}

#[test]
fn sync_before_attach_fails() {
    let mut layer = with_instance(1);
    let a = layer.xr_create_action_set(1, &c("a"), 0, 10).unwrap();
    layer.xr_create_session(1, 0, 7).unwrap();
    let entries = vec![ActiveActionSet { action_set: a, subaction_path: 0 }];
    assert_eq!(layer.xr_sync_actions(7, &entries).err(), Some(LayerError::ActionSetNotAttached));
    assert_eq!(layer.xr_sync_actions(7, &vec![]).err(), Some(LayerError::ActionSetNotAttached));
}

#[test]
fn sync_rejects_paths_and_unattached_sets() {
    let mut layer = with_instance(1);
    let a = layer.xr_create_action_set(1, &c("a"), 0, 10).unwrap();
    let b = layer.xr_create_action_set(1, &c("b"), 0, 11).unwrap();
    layer.xr_create_session(1, 0, 7).unwrap();
    layer.xr_attach_session_action_sets(7, &vec![a], 300).unwrap();
    let with_path = vec![ActiveActionSet { action_set: a, subaction_path: 5 }];
    assert!(layer.sync_would_abort(7, &with_path));
    let other = vec![ActiveActionSet { action_set: b, subaction_path: 0 }];
    assert!(!layer.sync_would_abort(7, &other));
    assert_eq!(layer.xr_sync_actions(7, &other).err(), Some(LayerError::ActionSetNotAttached));
    let unattached_first = vec![
        ActiveActionSet { action_set: b, subaction_path: 0 },
        ActiveActionSet { action_set: a, subaction_path: 5 },
    ];
    assert!(!layer.sync_would_abort(7, &unattached_first));
    assert_eq!(layer.xr_sync_actions(7, &unattached_first).err(), Some(LayerError::ActionSetNotAttached));
    let mut fresh = with_instance(2);
    fresh.xr_create_session(2, 0, 8).unwrap();
    assert!(!fresh.sync_would_abort(8, &with_path));
}

#[test]
fn sub_action_paths_fan_out() {
    let mut layer = with_instance(1);
    let set = layer.xr_create_action_set(1, &c("main"), 0, 100).unwrap();
    assert_eq!(inputs_needed(ActionKind::Float, 2), 2);
    let trigger = layer
        .xr_create_action(set, &c("trigger"), 2, &vec![11, 12], &vec![201, 202])
        .unwrap();
    layer.xr_create_session(1, 0, 7).unwrap();
    layer.xr_attach_session_action_sets(7, &vec![set], 300).unwrap();
    assert_eq!(
        layer.xr_get_action_state_float(7, trigger, 12),
        Ok(StateSource { input_session: 300, input_action: 202 })
    );
    assert_eq!(
        layer.xr_get_action_state_float(7, trigger, 11),
        Ok(StateSource { input_session: 300, input_action: 201 })
    );
    assert_eq!(layer.xr_get_action_state_float(7, trigger, 13), Err(LayerError::PathInvalid));
    assert_eq!(layer.xr_get_action_state_float(7, trigger, 0), Err(LayerError::PathInvalid));
    assert_eq!(layer.xr_get_action_state_boolean(7, trigger, 11), Err(LayerError::ActionTypeMismatch));
    assert_eq!(layer.xr_get_action_state_boolean(7, trigger, 13), Err(LayerError::PathInvalid));
}

#[test]
fn boolean_accessor_on_scalar_action() {
    let mut layer = with_instance(1);
    let set = layer.xr_create_action_set(1, &c("main"), 0, 100).unwrap();
    let grip = layer.xr_create_action(set, &c("grip"), 2, &vec![], &vec![250]).unwrap();
    let stick = layer.xr_create_action(set, &c("stick"), 3, &vec![], &vec![251]).unwrap();
    layer.xr_create_session(1, 0, 7).unwrap();
    layer.xr_attach_session_action_sets(7, &vec![set], 300).unwrap();
    assert_eq!(layer.xr_get_action_state_boolean(7, grip, 0), Err(LayerError::ActionTypeMismatch));
    assert_eq!(
        layer.xr_get_action_state_vector2f(7, stick, 0),
        Ok(StateSource { input_session: 300, input_action: 251 })
    );
    assert_eq!(layer.xr_get_action_state_vector2f(7, grip, 0), Err(LayerError::ActionTypeMismatch));
}

#[test]
fn state_query_errors_in_order() {
    let mut layer = with_instance(1);
    let set = layer.xr_create_action_set(1, &c("main"), 0, 100).unwrap();
    let jump = layer.xr_create_action(set, &c("jump"), 1, &vec![], &vec![200]).unwrap();
    layer.xr_create_session(1, 0, 7).unwrap();
    assert_eq!(layer.xr_get_action_state_boolean(8, jump, 0), Err(LayerError::HandleInvalid));
    assert_eq!(layer.xr_get_action_state_boolean(7, jump, 0), Err(LayerError::ActionSetNotAttached));
    layer.xr_attach_session_action_sets(7, &vec![set], 300).unwrap();
    assert_eq!(layer.xr_get_action_state_boolean(7, jump + 1, 0), Err(LayerError::HandleInvalid));
    assert_eq!(layer.xr_get_action_state_boolean(7, 5, 0), Err(LayerError::HandleInvalid));
}

#[test]
fn create_action_validates_input() {
    let mut layer = with_instance(1);
    let set = layer.xr_create_action_set(1, &c("main"), 0, 100).unwrap();
    assert_eq!(layer.check_create_action(set, &c("x"), 7), Err(LayerError::ValidationFailure));
    assert_eq!(layer.check_create_action(set, &c("x"), 2), Ok(()));
    assert_eq!(layer.check_create_action(set ^ 1, &c("x"), 2), Err(LayerError::HandleInvalid));
    assert_eq!(layer.check_create_action_set(1, &c("y")), Ok(()));
    assert_eq!(layer.check_create_action_set(1, &vec![1, 2]), Err(LayerError::ValidationFailure));
    assert_eq!(layer.check_create_action_set(5, &c("y")), Err(LayerError::HandleInvalid));
    assert_eq!(
        layer.xr_create_action(set, &c("x"), 7, &vec![], &vec![1]),
        Err(LayerError::ValidationFailure)
    );
    assert_eq!(
        layer.xr_create_action(set, &c("x"), 1, &vec![1, 2], &vec![1]),
        Err(LayerError::ValidationFailure)
    );
    assert_eq!(
        layer.xr_create_action(set, &vec![65, 66], 1, &vec![], &vec![1]),
        Err(LayerError::ValidationFailure)
    );
    assert_eq!(
        layer.xr_create_action(set ^ (3u64 << 32), &c("x"), 1, &vec![], &vec![1]),
        Err(LayerError::HandleInvalid)
    );
    assert_eq!(inputs_needed(ActionKind::Pose, 3), 0);
    assert!(layer.xr_create_action(set, &c("aim"), 4, &vec![11, 12], &vec![]).is_ok());
    assert_eq!(layer.actions.len(), 1);
}

#[test]
fn pose_actions_check_path_before_type() {
    let mut layer = with_instance(1);
    let set = layer.xr_create_action_set(1, &c("main"), 0, 100).unwrap();
    let aim = layer.xr_create_action(set, &c("aim"), 4, &vec![11, 12], &vec![]).unwrap();
    layer.xr_create_session(1, 0, 7).unwrap();
    layer.xr_attach_session_action_sets(7, &vec![set], 300).unwrap();
    assert_eq!(layer.xr_get_action_state_boolean(7, aim, 11), Err(LayerError::ActionTypeMismatch));
    assert_eq!(layer.xr_get_action_state_boolean(7, aim, 99), Err(LayerError::PathInvalid));
}

#[test]
fn registry_lookups() {
    let mut layer = Layer::new();
    assert_eq!(layer.enter(Target::Instance(1)), Err(LayerError::HandleInvalid));
    layer.create_instance(1, &c(LAYER_NAME), &c("demo"), &c("Monado(XRT) by Collabora et al")).unwrap();
    assert_eq!(layer.enter(Target::Instance(1)), Ok(()));
    assert_eq!(layer.enter(Target::Instance(2)), Err(LayerError::HandleInvalid));
    assert_eq!(layer.enter(Target::Session(7)), Err(LayerError::HandleInvalid));
    layer.xr_create_session(1, 0, 7).unwrap();
    assert_eq!(layer.enter(Target::Session(7)), Ok(()));
    assert_eq!(layer.instances[0].session(7), Some(0));
    assert_eq!(layer.instances[0].session(8), None);
    assert_eq!(layer.instance_handle(Target::Session(7)), Some(1));
    assert_eq!(layer.instance_handle(Target::Session(8)), None);
}

#[test]
fn reused_foreign_handles_lead_to_new_objects() {
    let mut layer = with_instance(1);
    layer.xr_create_session(1, 0, 7).unwrap();
    assert_eq!(layer.leave(Target::Session(7), CallOutcome::Aborted), -13);
    assert_eq!(layer.enter(Target::Instance(1)), Err(LayerError::InstanceLost));
    assert_eq!(layer.create_instance(1, &c(LAYER_NAME), &c("again"), &c("Oculus")), Ok(1));
    assert_eq!(layer.enter(Target::Instance(1)), Ok(()));
    assert_eq!(layer.instances[1].application_name, "again");
    assert!(layer.instances[0].poisoned);
    assert_eq!(layer.enter(Target::Session(7)), Err(LayerError::InstanceLost));
    assert_eq!(layer.xr_create_session(1, 0, 7), Ok(0));
    assert_eq!(layer.enter(Target::Session(7)), Ok(()));
    assert_eq!(layer.sessions.len(), 2);
    assert_eq!(layer.sessions[1].instance, 1);
    assert_eq!(layer.instances[1].session(7), Some(1));
}

#[test]
fn create_instance_rejects_bad_names() {
    let mut layer = Layer::new();
    assert_eq!(
        layer.create_instance(1, &c("XR_APILAYER_other"), &c("demo"), &c("Oculus")),
        Err(LayerError::ValidationFailure)
    );
    assert_eq!(
        layer.create_instance(1, &vec![88; 4], &c("demo"), &c("Oculus")),
        Err(LayerError::ValidationFailure)
    );
    assert_eq!(layer.create_instance(1, &c(LAYER_NAME), &vec![65; 8], &c("Oculus")), Err(LayerError::ValidationFailure));
    assert_eq!(
        layer.create_instance(1, &c(LAYER_NAME), &c("demo"), &vec![-1, -1, 0]),
        Err(LayerError::ValidationFailure)
    );
    assert_eq!(layer.enter(Target::Instance(1)), Err(LayerError::HandleInvalid));
    assert_eq!(layer.instances.len(), 0);
}

#[test]
fn aborted_call_poisons_instance() {
    let mut layer = with_instance(1);
    let set = layer.xr_create_action_set(1, &c("main"), 0, 100).unwrap();
    layer.xr_create_session(1, 0, 7).unwrap();
    let mut other = with_instance(2);
    assert_eq!(other.enter(Target::Instance(2)), Ok(()));
    assert_eq!(layer.leave(Target::Session(7), CallOutcome::Returned(Err(LayerError::PathInvalid))), -19);
    assert_eq!(layer.enter(Target::Instance(1)), Ok(()));
    assert_eq!(layer.leave(Target::Session(7), CallOutcome::Aborted), -13);
    assert!(layer.instances[0].poisoned);
    assert_eq!(layer.enter(Target::Instance(1)), Err(LayerError::InstanceLost));
    assert_eq!(layer.enter(Target::Session(7)), Err(LayerError::InstanceLost));
    assert_eq!(layer.enter(Target::ActionSet(set)), Err(LayerError::InstanceLost));
    assert_eq!(layer.xr_create_action_set(1, &c("late"), 0, 1), Err(LayerError::InstanceLost));
    assert_eq!(layer.xr_get_system(1, 1, 0, 5), Err(LayerError::InstanceLost));
    assert_eq!(other.leave(Target::Instance(9), CallOutcome::Aborted), -13);
    assert_eq!(other.enter(Target::Instance(2)), Ok(()));
}

#[test]
fn returned_codes_pass_through() {
    let mut layer = with_instance(1);
    assert_eq!(layer.leave(Target::Instance(1), CallOutcome::Returned(Ok(3))), 3);
    assert_eq!(layer.leave(Target::Instance(1), CallOutcome::Returned(Err(LayerError::Runtime(-31)))), -31);
    assert!(!layer.instances[0].poisoned);
}

#[test]
fn get_system_records_and_overwrites() {
    let mut layer = with_instance(1);
    assert_eq!(layer.xr_get_system(1, 1, 0, 42), Ok(0));
    assert_eq!(layer.xr_get_system(1, 2, 0, 43), Ok(0));
    assert_eq!(layer.xr_get_system(1, 2, 0, 42), Ok(0));
    assert_eq!(layer.instances[0].systems.len(), 2);
    assert_eq!(layer.instances[0].system_meta(42), Some(SystemMeta { form_factor: 2 }));
    assert_eq!(layer.instances[0].system_meta(43), Some(SystemMeta { form_factor: 2 }));
    assert_eq!(layer.instances[0].system_meta(44), None);
    assert_eq!(layer.xr_get_system(1, 1, -2, 44), Err(LayerError::Runtime(-2)));
    assert_eq!(layer.xr_get_system(9, 1, 0, 44), Err(LayerError::HandleInvalid));
    assert_eq!(layer.xr_create_session(1, -8, 50), Err(LayerError::Runtime(-8)));
}

#[test]
fn suggested_profiles() {
    let mut layer = with_instance(1);
    let set = layer.xr_create_action_set(1, &c("main"), 0, 100).unwrap();
    let jump = layer.xr_create_action(set, &c("jump"), 1, &vec![], &vec![200]).unwrap();
    let fire = layer.xr_create_action(set, &c("fire"), 1, &vec![], &vec![201]).unwrap();
    assert_eq!(
        layer.xr_suggest_interaction_profile_bindings(1, 77, None, &vec![(jump, 9)]),
        Err(LayerError::PathUnsupported)
    );
    assert_eq!(
        layer.xr_suggest_interaction_profile_bindings(1, 77, Some(5), &vec![(jump, 9), (jump ^ (1u64 << 40), 3)]),
        Err(LayerError::HandleInvalid)
    );
    assert!(layer.instances[0].suggested_bindings.is_empty());
    assert_eq!(layer.xr_suggest_interaction_profile_bindings(1, 77, Some(5), &vec![(jump, 9)]), Ok(0));
    assert_eq!(
        layer.xr_suggest_interaction_profile_bindings(1, 77, Some(6), &vec![(fire, 10), (jump, 11)]),
        Ok(0)
    );
    let latest = layer.instances[0].suggested_bindings.last().unwrap();
    assert_eq!((latest.profile, latest.input_profile), (77, 6));
    assert_eq!(
        latest.bindings,
        vec![SimpleBinding { action: 1, binding: 10 }, SimpleBinding { action: 0, binding: 11 }]
    );
}
