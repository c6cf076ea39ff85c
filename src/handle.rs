//! Generation-tagged handles and their flat 64-bit encoding.

use vstd::prelude::*;

verus! {

/// Identifies one collider or one rigid body: a dense slot index and the
/// generation of that slot, so that a reused slot does not alias a stale
/// handle.
#[derive(Clone, Copy, Debug, PartialEq, Eq, Structural, Hash)]
pub struct Handle {
    pub index: u32,
    pub generation: u32,
}

/// The flat encoding of a handle: the index in the low 32 bits, the
/// generation in the high 32 bits.
pub open spec fn flat_of(h: Handle) -> u64 {
    (h.index as int + h.generation as int * 0x1_0000_0000) as u64
}

impl Handle {
    /// Builds a handle from its index and generation.
    pub fn from_raw_parts(index: u32, generation: u32) -> (r: Handle)
        ensures
            r.index == index,
            r.generation == generation,
    {
        Handle { index, generation }
    }

    /// Splits a handle into its index and generation.
    pub fn into_raw_parts(self) -> (r: (u32, u32))
        ensures
            r == (self.index, self.generation),
    {
        (self.index, self.generation)
    }

    /// Packs this handle into one 64-bit value.
    pub fn into_flat(self) -> (r: u64)
        ensures
            r == flat_of(self),
    {
        let i: u32 = self.index;
        let g: u32 = self.generation;
        let r: u64 = (i as u64) | ((g as u64) << 32u64);
        assert(r == (i as u64) + (g as u64) * 0x1_0000_0000u64) by (bit_vector)
            requires
                r == (i as u64) | ((g as u64) << 32u64),
        ;
        r
    }
}

/// Unpacks a flat 64-bit value into a handle: the low 32 bits are the index,
/// the high 32 bits the generation. Every 64-bit value names some handle.
pub fn handle_from_flat(flat: u64) -> (r: Handle)
    ensures
        r.index == flat % 0x1_0000_0000,
        r.generation == flat / 0x1_0000_0000,
{
    let lo: u64 = flat & 0xffff_ffffu64;
    let hi: u64 = flat >> 32u64;
    assert(lo == flat % 0x1_0000_0000u64 && hi == flat / 0x1_0000_0000u64) by (bit_vector)
        requires
            lo == flat & 0xffff_ffffu64,
            hi == flat >> 32u64,
    ;
    Handle { index: lo as u32, generation: hi as u32 }
}

/// Packing a handle and unpacking the result gives the same handle back.
pub proof fn lemma_flat_round_trip(h: Handle)
    ensures
        flat_of(h) % 0x1_0000_0000 == h.index,
        flat_of(h) / 0x1_0000_0000 == h.generation,
{
    let f: int = h.index as int + h.generation as int * 0x1_0000_0000;
    assert(0 <= f < 0x1_0000_0000_0000_0000) by (nonlinear_arith)
        requires
            f == h.index as int + h.generation as int * 0x1_0000_0000,
            0 <= h.index < 0x1_0000_0000,
            0 <= h.generation < 0x1_0000_0000,
    ;
    assert(f % 0x1_0000_0000 == h.index as int && f / 0x1_0000_0000 == h.generation as int)
        by (nonlinear_arith)
        requires
            f == h.index as int + h.generation as int * 0x1_0000_0000,
            0 <= h.index < 0x1_0000_0000,
    ;
}

/// Two handles with the same flat encoding are the same handle, so comparing
/// flat values compares handles.
pub proof fn lemma_flat_injective(a: Handle, b: Handle)
    ensures
        flat_of(a) == flat_of(b) <==> a == b,
{
    lemma_flat_round_trip(a);
    lemma_flat_round_trip(b);
}

} // verus!
