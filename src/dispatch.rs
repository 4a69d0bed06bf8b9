//! The entry points the layer intercepts, by name. Every other name is
//! forwarded to the runtime below.
use vstd::prelude::*;
use crate::text::same_text;

verus! {

/// An intercepted entry point.
#[derive(Clone, Copy, Debug, PartialEq, Eq, Structural)]
pub enum Interceptor {
    GetSystem,
    CreateSession,
    CreateActionSet,
    SuggestInteractionProfileBindings,
    AttachSessionActionSets,
    SyncActions,
    GetActionStateBoolean,
    GetActionStateFloat,
    GetActionStateVector2f,
    CreateAction,
}

/// The interceptor registered under an entry-point name.
pub open spec fn spec_interceptor(name: Seq<char>) -> Option<Interceptor> {
    if name == "xrGetSystem"@ {
        Some(Interceptor::GetSystem)
    } else if name == "xrCreateSession"@ {
        Some(Interceptor::CreateSession)
    } else if name == "xrCreateActionSet"@ {
        Some(Interceptor::CreateActionSet)
    } else if name == "xrSuggestInteractionProfileBindings"@ {
        Some(Interceptor::SuggestInteractionProfileBindings)
    } else if name == "xrAttachSessionActionSets"@ {
        Some(Interceptor::AttachSessionActionSets)
    } else if name == "xrSyncActions"@ {
        Some(Interceptor::SyncActions)
    } else if name == "xrGetActionStateBoolean"@ {
        Some(Interceptor::GetActionStateBoolean)
    } else if name == "xrGetActionStateFloat"@ {
        Some(Interceptor::GetActionStateFloat)
    } else if name == "xrGetActionStateVector2f"@ {
        Some(Interceptor::GetActionStateVector2f)
    } else if name == "xrCreateAction"@ {
        Some(Interceptor::CreateAction)
    } else {
        None
    }
}

/// Looks up the interceptor for an entry-point name; `None` means the call
/// is forwarded unchanged.
pub fn get_interceptors(name: &str) -> (r: Option<Interceptor>)
    ensures
        r == spec_interceptor(name@),
{
    if same_text(name, "xrGetSystem") {
        Some(Interceptor::GetSystem)
    } else if same_text(name, "xrCreateSession") {
        Some(Interceptor::CreateSession)
    } else if same_text(name, "xrCreateActionSet") {
        Some(Interceptor::CreateActionSet)
    } else if same_text(name, "xrSuggestInteractionProfileBindings") {
        Some(Interceptor::SuggestInteractionProfileBindings)
    } else if same_text(name, "xrAttachSessionActionSets") {
        Some(Interceptor::AttachSessionActionSets)
    } else if same_text(name, "xrSyncActions") {
        Some(Interceptor::SyncActions)
    } else if same_text(name, "xrGetActionStateBoolean") {
        Some(Interceptor::GetActionStateBoolean)
    } else if same_text(name, "xrGetActionStateFloat") {
        Some(Interceptor::GetActionStateFloat)
    } else if same_text(name, "xrGetActionStateVector2f") {
        Some(Interceptor::GetActionStateVector2f)
    } else if same_text(name, "xrCreateAction") {
        Some(Interceptor::CreateAction)
    } else {
        None
    }
}

} // verus!
