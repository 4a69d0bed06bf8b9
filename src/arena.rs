//! Layer-issued handles: generation-safe slots of a `thunderdome` arena.
//!
//! Each arena maps an issued handle to a position in one of the layer's
//! tables. A handle is the 64-bit encoding of a slot index (low half) and a
//! generation (high half, never zero).
use vstd::prelude::*;
use thunderdome::{Arena, Index};
use crate::codes::LayerError;

verus! {

#[verifier::external_type_specification]
#[verifier::external_body]
#[verifier::reject_recursive_types(T)]
pub struct ExArena<T>(Arena<T>);

/// What an arena of table positions holds: the live entries, keyed by the
/// 64-bit encoding of their index.
pub uninterp spec fn arena_entries(a: Arena<usize>) -> Map<u64, usize>;

/// The slot index that a handle encodes.
pub open spec fn slot_of(bits: u64) -> u32 {
    (bits & 0xffff_ffffu64) as u32
}

/// The generation that a handle encodes.
pub open spec fn generation_of(bits: u64) -> u32 {
    (bits >> 32u64) as u32
}

/// An arena whose live entries occupy distinct slots, all with a generation.
pub open spec fn arena_wf(entries: Map<u64, usize>) -> bool {
    &&& entries.dom().finite()
    &&& forall|k: u64| #[trigger] entries.contains_key(k) ==> generation_of(k) != 0
    &&& forall|k1: u64, k2: u64|
        #[trigger] entries.contains_key(k1) && #[trigger] entries.contains_key(k2) && slot_of(k1)
            == slot_of(k2) ==> k1 == k2
}

/// Relies on `thunderdome::Arena::new`: a new arena is empty.
#[verifier::external_body]
pub(crate) fn arena_new() -> (r: Arena<usize>)
    ensures
        arena_entries(r) =~= Map::empty(),
{
    Arena::new()
}

/// Relies on `thunderdome::Arena::insert` and `Index::to_bits`: the value
/// goes into a slot that no live entry occupies, under a nonzero generation.
/// `insert` panics once the arena holds `u32::MAX` entries.
#[verifier::external_body]
pub(crate) fn arena_insert(a: &mut Arena<usize>, value: usize) -> (bits: u64)
    requires
        arena_entries(*old(a)).dom().len() < u32::MAX,
        arena_entries(*old(a)).dom().finite(),
    ensures
        !arena_entries(*old(a)).contains_key(bits),
        arena_entries(*final(a)) == arena_entries(*old(a)).insert(bits, value),
        generation_of(bits) != 0,
        forall|k: u64| #[trigger]
            arena_entries(*old(a)).contains_key(k) ==> slot_of(k) != slot_of(bits),
{
    a.insert(value).to_bits()
}

/// Relies on `thunderdome::Index::from_bits` and `Arena::get`: the entry
/// whose index encodes to `bits`, if it is live.
#[verifier::external_body]
pub(crate) fn arena_get(a: &Arena<usize>, bits: u64) -> (r: Option<usize>)
    ensures
        arena_entries(*a).contains_key(bits) ==> r == Some(arena_entries(*a)[bits]),
        !arena_entries(*a).contains_key(bits) ==> r.is_none(),
{
    Index::from_bits(bits).and_then(|i| a.get(i).copied())
}

/// A layer-issued handle taken apart: slot index and generation.
#[derive(Clone, Copy, Debug, PartialEq, Eq, Structural)]
pub struct ArenaHandle {
    pub slot: u32,
    pub generation: u32,
}

impl ArenaHandle {
    /// The 64-bit encoding of a slot and a generation.
    pub open spec fn spec_to_bits(self) -> u64 {
        ((self.generation as u64) << 32u64) | (self.slot as u64)
    }

    /// Encodes the handle: generation in the high half, slot in the low half.
    pub fn to_bits(self) -> (r: u64)
        ensures
            r == self.spec_to_bits(),
    {
        ((self.generation as u64) << 32u64) | (self.slot as u64)
    }

    /// Decodes a handle; bits with a zero generation encode none.
    pub fn from_bits(bits: u64) -> (r: Option<ArenaHandle>)
        ensures
            generation_of(bits) == 0 ==> r.is_none(),
            generation_of(bits) != 0 ==> r == Some(
                (ArenaHandle { slot: slot_of(bits), generation: generation_of(bits) }),
            ),
    {
        let generation = (bits >> 32u64) as u32;
        if generation == 0 {
            None
        } else {
            Some(ArenaHandle { slot: (bits & 0xffff_ffffu64) as u32, generation })
        }
    }
}

/// Resolves a layer-issued handle: the bits must decode to a slot and a
/// generation, and that index must be live.
pub fn get(arena: &Arena<usize>, handle: u64) -> (r: Result<usize, LayerError>)
    requires
        arena_wf(arena_entries(*arena)),
    ensures
        arena_entries(*arena).contains_key(handle) ==> r == Ok::<usize, LayerError>(
            arena_entries(*arena)[handle],
        ),
        !arena_entries(*arena).contains_key(handle) ==> r == Err::<usize, LayerError>(
            LayerError::HandleInvalid,
        ),
{
    if ArenaHandle::from_bits(handle).is_none() {
        return Err(LayerError::HandleInvalid);
    }
    match arena_get(arena, handle) {
        Some(v) => Ok(v),
        None => Err(LayerError::HandleInvalid),
    }
}

/// Encoding a handle with a nonzero generation and decoding the bits gives
/// back the same slot and generation; decoding is also the inverse of
/// encoding on every valid handle value.
pub proof fn lemma_handle_round_trip(h: ArenaHandle, bits: u64)
    requires
        h.generation != 0,
    ensures
        generation_of(h.spec_to_bits()) == h.generation,
        slot_of(h.spec_to_bits()) == h.slot,
        generation_of(bits) != 0 ==> (ArenaHandle {
            slot: slot_of(bits),
            generation: generation_of(bits),
        }).spec_to_bits() == bits,
{
    let g = h.generation;
    let s = h.slot;
    assert((((g as u64) << 32u64) | (s as u64)) >> 32u64 == g as u64) by (bit_vector);
    assert((((g as u64) << 32u64) | (s as u64)) & 0xffff_ffffu64 == s as u64) by (bit_vector);
    assert((((((bits >> 32u64) as u32) as u64) << 32u64) | (((bits & 0xffff_ffffu64) as u32)
        as u64)) == bits) by (bit_vector);
}

/// In a well-formed arena, a live handle is the only live handle of its
/// slot: the same slot under any other generation finds nothing.
pub proof fn lemma_stale_generation(entries: Map<u64, usize>, live: u64, other: u64)
    requires
        arena_wf(entries),
        entries.contains_key(live),
        slot_of(other) == slot_of(live),
        generation_of(other) != generation_of(live),
    ensures
        !entries.contains_key(other),
{
}

/// Inserting through `arena_insert` keeps an arena well-formed.
pub proof fn lemma_insert_keeps_wf(entries: Map<u64, usize>, bits: u64, value: usize)
    requires
        arena_wf(entries),
        !entries.contains_key(bits),
        generation_of(bits) != 0,
        forall|k: u64| #[trigger] entries.contains_key(k) ==> slot_of(k) != slot_of(bits),
    ensures
        arena_wf(entries.insert(bits, value)),
        entries.insert(bits, value).dom().len() == entries.dom().len() + 1,
{
}

} // verus!
