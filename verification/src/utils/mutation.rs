use vstd::prelude::*;

verus! {

/// Always `true`: whatever `seed` is, the low byte of the mixed value is below
/// `0x100`. It lets a branch look data-dependent while its outcome is fixed.
pub fn opaque_branch_condition(seed: usize) -> (r: bool)
    ensures
        r,
{
    let a: usize = seed.wrapping_mul(0x5F3759DF);
    let b: usize = a ^ (a >> 16usize);
    let c: usize = b.wrapping_add(0x12345678);
    assert((c & 0xFF) < 0x100) by (bit_vector);
    (c & 0xFF) < 0x100
}

} // verus!
