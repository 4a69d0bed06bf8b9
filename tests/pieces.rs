use suinput_layer::action::{ActionKind, ManySubActions, SingletonAction, SubActions};
use suinput_layer::arena::ArenaHandle;
use suinput_layer::codes::{cvt, outcome_code, LayerError, ToResult};
use suinput_layer::dispatch::{get_interceptors, Interceptor};
use suinput_layer::instance::Runtime;
use suinput_layer::negotiate::{check_layer_name, negotiate, NegotiateInfo, NegotiateResponse, LAYER_NAME};
use suinput_layer::table::{table_get, table_upsert};
use suinput_layer::text::{
    buffer_step, place_cstr, same_text, str_from_bytes_until_nul, string_from_buffer,
    trim_trailing_nuls, BufferStep,
};

fn c(text: &str) -> Vec<i8> {
    let mut v: Vec<i8> = text.bytes().map(|b| b as i8).collect();
    v.push(0);
    v
}

#[test]
fn handle_bits_round_trip() {
    let h = ArenaHandle { slot: 7, generation: 3 };
    assert_eq!(h.to_bits(), (3u64 << 32) | 7);
    assert_eq!(ArenaHandle::from_bits(h.to_bits()), Some(h));
    let top = ArenaHandle { slot: u32::MAX, generation: u32::MAX };
    assert_eq!(ArenaHandle::from_bits(top.to_bits()), Some(top));
    assert_eq!(ArenaHandle::from_bits(5), None);
}

#[test]
fn stale_generation_is_rejected() {
    let mut layer = suinput_layer::layer::Layer::new();
    layer.create_instance(1, &c(LAYER_NAME), &c("demo"), &c("Oculus")).unwrap();
    let set = layer.xr_create_action_set(1, &c("main"), 0, 100).unwrap();
    let h = ArenaHandle::from_bits(set).unwrap();
    assert_eq!(h.generation, 1);
    let stale = ArenaHandle { slot: h.slot, generation: h.generation + 1 };
    assert_eq!(
        suinput_layer::arena::get(&layer.action_set_arena, stale.to_bits()),
        Err(LayerError::HandleInvalid)
    );
    assert_eq!(suinput_layer::arena::get(&layer.action_set_arena, set), Ok(0));
    let second = layer.xr_create_action_set(1, &c("other"), 0, 101).unwrap();
    assert_ne!(ArenaHandle::from_bits(second).unwrap().slot, h.slot);
    assert_eq!(suinput_layer::arena::get(&layer.action_set_arena, second), Ok(1));
}

#[test]
fn sub_actions_construction() {
    assert!(matches!(SubActions::new(ActionKind::Pose, &vec![], &vec![]), SubActions::Single(SingletonAction::Pose)));
    assert!(matches!(
        SubActions::new(ActionKind::Vibration, &vec![], &vec![]),
        SubActions::Single(SingletonAction::Vibration)
    ));
    assert!(matches!(
        SubActions::new(ActionKind::Boolean, &vec![], &vec![4]),
        SubActions::Single(SingletonAction::Boolean(4))
    ));
    match SubActions::new(ActionKind::Float, &vec![11, 11, 12], &vec![1, 2, 3]) {
        SubActions::Many(ManySubActions::Float(pairs)) => assert_eq!(pairs, vec![(11, 1), (11, 2), (12, 3)]),
        _ => panic!("expected one float input per path"),
    }
    match SubActions::new(ActionKind::Pose, &vec![11, 12], &vec![]) {
        SubActions::Many(ManySubActions::Pose(paths)) => assert_eq!(paths, vec![11, 12]),
        _ => panic!("expected the declared paths"),
    }
}

#[test]
fn error_codes() {
    assert_eq!(LayerError::ValidationFailure.code(), -1);
    assert_eq!(LayerError::RuntimeFailure.code(), -2);
    assert_eq!(LayerError::InitializationFailed.code(), -6);
    assert_eq!(LayerError::LimitReached.code(), -10);
    assert_eq!(LayerError::SizeInsufficient.code(), -11);
    assert_eq!(LayerError::HandleInvalid.code(), -12);
    assert_eq!(LayerError::InstanceLost.code(), -13);
    assert_eq!(LayerError::PathInvalid.code(), -19);
    assert_eq!(LayerError::PathUnsupported.code(), -22);
    assert_eq!(LayerError::ActionTypeMismatch.code(), -27);
    assert_eq!(LayerError::ActionSetNotAttached.code(), -46);
    assert_eq!(LayerError::ActionSetsAlreadyAttached.code(), -47);
    assert_eq!(LayerError::Runtime(-30).code(), -30);
    assert_eq!(outcome_code(Ok(2)), 2);
    assert_eq!(outcome_code(Err(LayerError::HandleInvalid)), -12);
}

#[test]
fn result_codes_split() {
    assert_eq!(0i32.result(), Ok(0));
    assert_eq!(4i32.result(), Ok(4));
    assert_eq!((-12i32).result(), Err(-12));
    assert_eq!((-1i32).result2("x"), Err(-1));
    assert_eq!(1i32.result2("x"), Ok("x"));
    assert_eq!(cvt(0), Ok(0));
    assert_eq!(cvt(-13), Err(LayerError::Runtime(-13)));
}

#[test]
fn c_strings() {
    assert_eq!(str_from_bytes_until_nul(&c("hello")), Ok("hello".to_string()));
    let mut padded = c("ab");
    padded.extend_from_slice(&[99, 0, 5]);
    assert_eq!(str_from_bytes_until_nul(&padded), Ok("ab".to_string()));
    assert_eq!(str_from_bytes_until_nul(&[0]), Ok(String::new()));
    assert_eq!(str_from_bytes_until_nul(&[104, 105]), Err(LayerError::ValidationFailure));
    assert_eq!(str_from_bytes_until_nul(&[]), Err(LayerError::ValidationFailure));
    assert_eq!(str_from_bytes_until_nul(&[-61, 0]), Err(LayerError::ValidationFailure));
    assert_eq!(str_from_bytes_until_nul(&[-61, -87, 0]), Ok("\u{e9}".to_string()));
}

#[test]
fn place_and_trim() {
    let mut out = vec![9i8; 6];
    place_cstr(&mut out, "abc");
    assert_eq!(out, vec![97, 98, 99, 0, 9, 9]);
    let mut exact = vec![1i8; 3];
    place_cstr(&mut exact, "xy");
    assert_eq!(exact, vec![120, 121, 0]);
    let mut bytes = vec![104, 0, 105, 0, 0];
    trim_trailing_nuls(&mut bytes);
    assert_eq!(bytes, vec![104, 0, 105]);
    let mut zeros = vec![0u8, 0];
    trim_trailing_nuls(&mut zeros);
    assert!(zeros.is_empty());
    assert_eq!(string_from_buffer(b"/user/hand/left\0\0".to_vec()), Ok("/user/hand/left".to_string()));
    assert_eq!(string_from_buffer(vec![0xff, 0]), Err(LayerError::ValidationFailure));
}

#[test]
fn buffer_protocol_steps() {
    assert_eq!(buffer_step(0, 12, 0), BufferStep::Grow(12));
    assert_eq!(buffer_step(0, 0, 0), BufferStep::Filled(0));
    assert_eq!(buffer_step(0, 12, 12), BufferStep::Filled(12));
    assert_eq!(buffer_step(-11, 20, 12), BufferStep::Grow(20));
    assert_eq!(buffer_step(-11, 12, 12), BufferStep::Failed(LayerError::SizeInsufficient));
    assert_eq!(buffer_step(-2, 0, 12), BufferStep::Failed(LayerError::Runtime(-2)));
    assert_eq!(buffer_step(-11, 5, 0), BufferStep::Failed(LayerError::Runtime(-11)));
    assert_eq!(buffer_step(-2, 0, 0), BufferStep::Failed(LayerError::Runtime(-2)));
}

#[test]
fn texts_compare() {
    assert!(same_text("abc", "abc"));
    assert!(!same_text("abc", "abd"));
    assert!(!same_text("abc", "ab"));
    assert!(same_text("", ""));
}

#[test]
fn runtimes_by_name() {
    assert!(matches!(Runtime::from_name("SteamVR/OpenXR"), Runtime::SteamVR));
    assert!(matches!(Runtime::from_name("Oculus"), Runtime::Oculus));
    assert!(matches!(Runtime::from_name("Windows Mixed Reality Runtime"), Runtime::WMR));
    assert!(matches!(Runtime::from_name("Monado(XRT) by Collabora et al"), Runtime::Monado));
    match Runtime::from_name("oculus") {
        Runtime::Other(name) => assert_eq!(name, "oculus"),
        _ => panic!("a near miss must not match"),
    }
}

#[test]
fn interceptors_by_name() {
    assert_eq!(get_interceptors("xrGetSystem"), Some(Interceptor::GetSystem));
    assert_eq!(get_interceptors("xrCreateSession"), Some(Interceptor::CreateSession));
    assert_eq!(get_interceptors("xrCreateActionSet"), Some(Interceptor::CreateActionSet));
    assert_eq!(
        get_interceptors("xrSuggestInteractionProfileBindings"),
        Some(Interceptor::SuggestInteractionProfileBindings)
    );
    assert_eq!(get_interceptors("xrAttachSessionActionSets"), Some(Interceptor::AttachSessionActionSets));
    assert_eq!(get_interceptors("xrSyncActions"), Some(Interceptor::SyncActions));
    assert_eq!(get_interceptors("xrGetActionStateBoolean"), Some(Interceptor::GetActionStateBoolean));
    assert_eq!(get_interceptors("xrGetActionStateFloat"), Some(Interceptor::GetActionStateFloat));
    assert_eq!(get_interceptors("xrGetActionStateVector2f"), Some(Interceptor::GetActionStateVector2f));
    assert_eq!(get_interceptors("xrCreateAction"), Some(Interceptor::CreateAction));
    assert_eq!(get_interceptors("xrDestroyInstance"), None);
    assert_eq!(get_interceptors("xrgetsystem"), None);
}

#[test]
fn loader_negotiation() {
    let info = NegotiateInfo {
        min_interface_version: 1,
        max_interface_version: 1,
        min_api_version: 10,
        max_api_version: 20,
    };
    assert_eq!(
        negotiate(LAYER_NAME, info, 1, 15),
        Ok(NegotiateResponse { interface_version: 1, api_version: 15 })
    );
    assert_eq!(negotiate("XR_APILAYER_other", info, 1, 15), Err(LayerError::InitializationFailed));
    assert_eq!(negotiate(LAYER_NAME, info, 2, 15), Err(LayerError::InitializationFailed));
    assert_eq!(negotiate(LAYER_NAME, info, 1, 21), Err(LayerError::InitializationFailed));
    assert_eq!(negotiate(LAYER_NAME, info, 1, 9), Err(LayerError::InitializationFailed));
    assert_eq!(check_layer_name(&c(LAYER_NAME)), Ok(()));
    assert_eq!(check_layer_name(&c("XR_APILAYER_other")), Err(LayerError::ValidationFailure));
    assert_eq!(check_layer_name(&[88, 82]), Err(LayerError::ValidationFailure));
}

#[test]
fn keyed_tables() {
    let mut t: Vec<(u64, i32)> = Vec::new();
    assert_eq!(table_get(&t, 1), None);
    table_upsert(&mut t, 1, 10);
    table_upsert(&mut t, 2, 20);
    table_upsert(&mut t, 1, 11);
    assert_eq!(table_get(&t, 1), Some(11));
    assert_eq!(table_get(&t, 2), Some(20));
    assert_eq!(table_get(&t, 3), None);
    assert_eq!(t.len(), 2);
}
