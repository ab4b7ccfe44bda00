use vstd::prelude::*;

verus! {

/// A handle to an entity of the world: its slot index and the generation of
/// that slot. A live entity always has a generation of at least one.
#[derive(Debug, Clone, Copy, PartialEq, Eq, Hash, Structural)]
pub struct Entity {
    pub index: u32,
    pub generation: u32,
}

impl Entity {
    /// The entity in slot `index` at its first generation.
    pub fn from_raw(index: u32) -> (e: Entity)
        ensures
            e.index == index,
            e.generation == 1,
    {
        Entity { index, generation: 1 }
    }

    /// The entity packed into 64 bits: the generation above, the index below.
    pub open spec fn spec_bits(self) -> nat {
        (self.generation * 0x1_0000_0000nat + self.index) as nat
    }

    /// The entity packed into 64 bits: the generation above, the index below.
    pub fn to_bits(&self) -> (bits: u64)
        ensures
            bits == self.spec_bits(),
    {
        let g = self.generation as u64;
        let i = self.index as u64;
        assert((g << 32u64) | i == g * 0x1_0000_0000 + i) by (bit_vector)
            requires
                g <= 0xffff_ffff,
                i <= 0xffff_ffff,
        ;
        (g << 32u64) | i
    }

    /// The entity that `bits` packs, if its generation is not zero.
    pub fn from_bits(bits: u64) -> (e: Option<Entity>)
        ensures
            bits / 0x1_0000_0000 == 0 <==> e is None,
            e matches Some(e) ==> e.spec_bits() == bits,
    {
        let g = bits >> 32u64;
        let i = bits & 0xffff_ffffu64;
        assert(g == bits / 0x1_0000_0000 && i == bits % 0x1_0000_0000 && g <= 0xffff_ffff) by (bit_vector)
            requires
                g == bits >> 32u64,
                i == bits & 0xffff_ffffu64,
        ;
        if g == 0 {
            None
        } else {
            Some(Entity { index: i as u32, generation: g as u32 })
        }
    }
}

/// An entity of a non-zero generation is the only entity that its bits
/// pack, and reading those bits back finds a non-zero generation: so
/// `from_bits` of `to_bits` gives the same entity back.
pub proof fn lemma_bits_round_trip(e: Entity, other: Entity)
    requires
        e.generation >= 1,
        other.spec_bits() == e.spec_bits(),
    ensures
        e.spec_bits() / 0x1_0000_0000 != 0,
        other == e,
{
    vstd::arithmetic::div_mod::lemma_fundamental_div_mod_converse(
        e.spec_bits() as int,
        0x1_0000_0000,
        e.generation as int,
        e.index as int,
    );
    vstd::arithmetic::div_mod::lemma_fundamental_div_mod_converse(
        other.spec_bits() as int,
        0x1_0000_0000,
        other.generation as int,
        other.index as int,
    );
}

} // verus!
