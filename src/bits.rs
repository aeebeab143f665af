use vstd::prelude::*;

verus! {

/// Whether bit `k` of `x` is set.
pub open spec fn bit_set(x: u32, k: u32) -> bool {
    (x >> k) & 1u32 == 1u32
}

/// Clearing bit `k` clears that bit and keeps every other one.
pub proof fn lemma_clear_bit(x: u32, k: u32, j: u32)
    requires
        k < 32,
        j < 32,
    ensures
        bit_set(x & !(1u32 << k), j) == (j != k && bit_set(x, j)),
{
    assert(((x & !(1u32 << k)) >> j) & 1u32 == 1u32 <==> (j != k && (x >> j) & 1u32 == 1u32))
        by (bit_vector)
        requires
            k < 32,
            j < 32,
    ;
}

/// Setting bit `k` sets that bit and keeps every other one.
pub proof fn lemma_set_bit(x: u32, k: u32, j: u32)
    requires
        k < 32,
        j < 32,
    ensures
        bit_set(x | (1u32 << k), j) == (j == k || bit_set(x, j)),
{
    assert(((x | (1u32 << k)) >> j) & 1u32 == 1u32 <==> (j == k || (x >> j) & 1u32 == 1u32))
        by (bit_vector)
        requires
            k < 32,
            j < 32,
    ;
}

} // verus!
