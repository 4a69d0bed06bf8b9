//! The loader's handshake: the layer answers only to its own name and to
//! version ranges that include the versions it implements.
use vstd::prelude::*;
use crate::codes::LayerError;
use crate::text::{c_text, same_text, str_from_bytes_until_nul};

verus! {

/// The name under which the layer is registered with the loader.
pub const LAYER_NAME: &'static str = "XR_APILAYER_SORENON_suinput_layer";

/// The version ranges a loader offers.
#[derive(Clone, Copy, Debug, PartialEq, Eq, Structural)]
pub struct NegotiateInfo {
    pub min_interface_version: u32,
    pub max_interface_version: u32,
    pub min_api_version: u64,
    pub max_api_version: u64,
}

/// The versions the layer chose, to report back to the loader.
#[derive(Clone, Copy, Debug, PartialEq, Eq, Structural)]
pub struct NegotiateResponse {
    pub interface_version: u32,
    pub api_version: u64,
}

/// Whether a loader's offer is one the layer accepts.
pub open spec fn accepts(layer_name: Seq<char>, info: NegotiateInfo, interface_version: u32, api_version: u64) -> bool {
    &&& layer_name == LAYER_NAME@
    &&& info.min_interface_version <= interface_version <= info.max_interface_version
    &&& info.min_api_version <= api_version <= info.max_api_version
}

/// Answers the loader's handshake for a layer implementing
/// `interface_version` and `api_version`: those versions when the name is
/// the layer's and both ranges include them, else an initialization failure.
pub fn negotiate(layer_name: &str, info: NegotiateInfo, interface_version: u32, api_version: u64) -> (r:
    Result<NegotiateResponse, LayerError>)
    ensures
        accepts(layer_name@, info, interface_version, api_version) ==> r == Ok::<
            NegotiateResponse,
            LayerError,
        >(NegotiateResponse { interface_version, api_version }),
        !accepts(layer_name@, info, interface_version, api_version) ==> r == Err::<
            NegotiateResponse,
            LayerError,
        >(LayerError::InitializationFailed),
{
    if !same_text(layer_name, LAYER_NAME) {
        return Err(LayerError::InitializationFailed);
    }
    if info.min_interface_version > interface_version || info.max_interface_version < interface_version
        || info.min_api_version > api_version || info.max_api_version < api_version {
        return Err(LayerError::InitializationFailed);
    }
    Ok(NegotiateResponse { interface_version, api_version })
}

/// Checks the layer name the loader put in the chain for this layer, when
/// an instance is created through it: it must be a nul-terminated text
/// equal to the layer's name.
pub fn check_layer_name(layer_name: &[i8]) -> (r: Result<(), LayerError>)
    ensures
        c_text(layer_name@) == Some(LAYER_NAME@) ==> r == Ok::<(), LayerError>(()),
        c_text(layer_name@) != Some(LAYER_NAME@) ==> r == Err::<(), LayerError>(
            LayerError::ValidationFailure,
        ),
{
    match str_from_bytes_until_nul(layer_name) {
        Ok(name) => if same_text(name.as_str(), LAYER_NAME) {
            Ok(())
        } else {
            Err(LayerError::ValidationFailure)
        },
        Err(e) => Err(e),
    }
}

} // verus!
