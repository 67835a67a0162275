use vstd::prelude::*;
use vstd::arithmetic::div_mod::{lemma_add_mod_noop, lemma_mod_add_multiples_vanish, lemma_small_mod};

verus! {

/// First mixing step: a linear congruential step modulo 2^32.
pub open spec fn hash_stage1(state: u32) -> u32 {
    ((state as nat * 747_796_405nat + 2_891_336_453nat) % 0x1_0000_0000nat) as u32
}

/// Second mixing step: a data-dependent shift folded back in, then a
/// multiplication modulo 2^32.
pub open spec fn hash_stage2(s: u32) -> u32 {
    let shift = ((s >> 28u32) + 4) as u32;
    ((((s >> shift) ^ s) as nat * 277_803_737nat) % 0x1_0000_0000nat) as u32
}

/// The PCG-style 32-bit hash used for deterministic pseudo-randomness.
pub open spec fn spec_hash_u32(state: u32) -> u32 {
    let s2 = hash_stage2(hash_stage1(state));
    (s2 >> 22u32) ^ s2
}

/// Multiplying then adding with wraparound is the affine map taken modulo 2^32.
proof fn lemma_wrapping_affine(x: u32, a: u32, b: u32)
    ensures
        x.wrapping_mul(a).wrapping_add(b) == ((x as nat * a as nat + b as nat)
            % 0x1_0000_0000nat) as u32,
{
    let m: int = 0x1_0000_0000;
    let p: int = x as int * a as int;
    let w = x.wrapping_mul(a);
    assert(w as int == p % m);
    lemma_add_mod_noop(p, b as int, m);
    lemma_small_mod(b as nat, m as nat);
    let s: int = w as int + b as int;
    if s >= m {
        lemma_mod_add_multiples_vanish(s - m, m);
        lemma_small_mod((s - m) as nat, m as nat);
    } else {
        lemma_small_mod(s as nat, m as nat);
    }
}

/// Hashes a 32-bit state into a well-mixed 32-bit value.
pub fn hash_u32(state: u32) -> (r: u32)
    ensures
        r == spec_hash_u32(state),
{
    let s1 = state.wrapping_mul(747_796_405).wrapping_add(2_891_336_453);
    proof {
        lemma_wrapping_affine(state, 747_796_405, 2_891_336_453);
    }
    assert(s1 >> 28u32 <= 15) by (bit_vector);
    let shift = (s1 >> 28).wrapping_add(4);
    assert(shift == ((s1 >> 28u32) + 4) as u32);
    let mixed = (s1 >> shift) ^ s1;
    let s2 = mixed.wrapping_mul(277_803_737);
    assert(s2 == hash_stage2(s1));
    (s2 >> 22) ^ s2
}

} // verus!
