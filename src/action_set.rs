//! Action sets: minted by the layer, with no counterpart below it.
use vstd::prelude::*;

verus! {

/// The layer's state for one action set.
#[derive(Debug)]
pub struct LayerActionSet {
    /// The owning instance, as a position in the layer's instance table.
    pub instance: usize,
    /// The declared name.
    pub name: String,
    /// The declared priority.
    pub priority: u32,
    /// The input-abstraction action set created for it.
    pub input_set: u64,
}

} // verus!
