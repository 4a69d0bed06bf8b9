//! Result codes: the layer's own error kinds and their foreign encoding.
use vstd::prelude::*;

verus! {

/// The foreign success code.
pub const SUCCESS: i32 = 0;

/// Everything the layer itself can decline a call with.
#[derive(Clone, Copy, Debug, PartialEq, Eq, Structural)]
pub enum LayerError {
    /// Malformed or mismatched negotiation or string data.
    ValidationFailure,
    /// Abnormal termination before any instance context exists.
    RuntimeFailure,
    /// The negotiation with the loader could not be completed.
    InitializationFailed,
    /// A fixed-capacity table of the layer is full.
    LimitReached,
    /// A caller-supplied buffer is too small.
    SizeInsufficient,
    /// An unresolvable or stale handle.
    HandleInvalid,
    /// The owning instance is poisoned.
    InstanceLost,
    /// A path that does not name a declared sub-action.
    PathInvalid,
    /// A path the input-abstraction runtime cannot resolve.
    PathUnsupported,
    /// A state accessor that does not match the action's value type.
    ActionTypeMismatch,
    /// The session has no attached action sets, or the set is not among them.
    ActionSetNotAttached,
    /// The session's action sets were attached before.
    ActionSetsAlreadyAttached,
    /// A failure code reported by the runtime below, passed on unchanged.
    Runtime(i32),
}

/// The foreign result code of an error kind.
pub open spec fn spec_error_code(e: LayerError) -> int {
    match e {
        LayerError::ValidationFailure => -1,
        LayerError::RuntimeFailure => -2,
        LayerError::InitializationFailed => -6,
        LayerError::LimitReached => -10,
        LayerError::SizeInsufficient => -11,
        LayerError::HandleInvalid => -12,
        LayerError::InstanceLost => -13,
        LayerError::PathInvalid => -19,
        LayerError::PathUnsupported => -22,
        LayerError::ActionTypeMismatch => -27,
        LayerError::ActionSetNotAttached => -46,
        LayerError::ActionSetsAlreadyAttached => -47,
        LayerError::Runtime(code) => code as int,
    }
}

impl LayerError {
    /// The foreign result code that reports this error.
    pub fn code(&self) -> (r: i32)
        ensures
            r == spec_error_code(*self),
    {
        match self {
            LayerError::ValidationFailure => -1,
            LayerError::RuntimeFailure => -2,
            LayerError::InitializationFailed => -6,
            LayerError::LimitReached => -10,
            LayerError::SizeInsufficient => -11,
            LayerError::HandleInvalid => -12,
            LayerError::InstanceLost => -13,
            LayerError::PathInvalid => -19,
            LayerError::PathUnsupported => -22,
            LayerError::ActionTypeMismatch => -27,
            LayerError::ActionSetNotAttached => -46,
            LayerError::ActionSetsAlreadyAttached => -47,
            LayerError::Runtime(code) => *code,
        }
    }
}

/// The foreign code that reports the outcome of an intercepted call.
pub fn outcome_code(r: Result<i32, LayerError>) -> (c: i32)
    ensures
        c == match r {
            Ok(code) => code as int,
            Err(e) => spec_error_code(e),
        },
{
    match r {
        Ok(code) => code,
        Err(e) => e.code(),
    }
}

/// A foreign result code is a success exactly when it is not negative.
pub open spec fn is_success(code: i32) -> bool {
    code >= 0
}

/// Splitting a foreign result code into success and failure.
pub trait ToResult: Sized {
    /// Whether this value reports success.
    spec fn spec_succeeded(&self) -> bool;

    /// `Ok(ok)` on success, else the value itself as the error.
    fn result2<T>(self, ok: T) -> (r: Result<T, Self>)
        ensures
            self.spec_succeeded() ==> r == Ok::<T, Self>(ok),
            !self.spec_succeeded() ==> r == Err::<T, Self>(self),
    ;

    /// The value itself, as `Ok` on success and as `Err` on failure.
    fn result(self) -> (r: Result<Self, Self>)
        where Self: Copy,
        ensures
            self.spec_succeeded() ==> r == Ok::<Self, Self>(self),
            !self.spec_succeeded() ==> r == Err::<Self, Self>(self),
    {
        self.result2(self)
    }
}

impl ToResult for i32 {
    open spec fn spec_succeeded(&self) -> bool {
        is_success(*self)
    }

    fn result2<T>(self, ok: T) -> (r: Result<T, i32>) {
        if self >= 0 {
            Ok(ok)
        } else {
            Err(self)
        }
    }
}

/// A foreign result code as a `Result` of the layer: successes pass through,
/// failures become `LayerError::Runtime`.
pub fn cvt(code: i32) -> (r: Result<i32, LayerError>)
    ensures
        is_success(code) ==> r == Ok::<i32, LayerError>(code),
        !is_success(code) ==> r == Err::<i32, LayerError>(LayerError::Runtime(code)),
{
    match code.result() {
        Ok(c) => Ok(c),
        Err(c) => Err(LayerError::Runtime(c)),
    }
}

} // verus!
