use vstd::prelude::*;

use crate::accepted_address;

verus! {

/// The address window that counts as a dereferenceable user-mode pointer.
pub open spec fn user_space_address(addr: int) -> bool {
    0x10000 < addr && addr < 0x7FFF_FFFF_FFFF
}

/// Tells whether `addr` lies strictly between `0x10000` and `0x7FFF_FFFF_FFFF`.
pub fn is_valid_ptr(addr: usize) -> (r: bool)
    ensures
        r == user_space_address(addr as int),
{
    addr > 0x10000 && (addr as u64) < 0x7FFF_FFFF_FFFFu64
}

/// `base + off` when the sum fits in a `usize`.
pub open spec fn offset_addr(base: usize, off: int) -> Option<usize> {
    if base + off <= usize::MAX {
        Some((base + off) as usize)
    } else {
        None
    }
}

/// `offset_addr(base, off)` when the sum fits and passes `is_valid`.
pub open spec fn valid_offset_addr(base: usize, off: int) -> Option<usize> {
    match offset_addr(base, off) {
        Some(a) => if accepted_address(a) {
            Some(a)
        } else {
            None
        },
        None => None,
    }
}

/// `offset_addr` is the plain sum: it is `base + off` whenever that fits in a
/// `usize`, and nothing otherwise; `valid_offset_addr` is that sum when it
/// also passes the address check.
pub proof fn lemma_offset_addr_is_sum(base: usize, off: int)
    requires
        0 <= off,
    ensures
        base + off <= usize::MAX ==> offset_addr(base, off) == Some((base + off) as usize),
        base + off > usize::MAX ==> offset_addr(base, off) is None,
        offset_addr(base, off) matches Some(a) ==> a as int == base + off,
        valid_offset_addr(base, off) matches Some(a) ==> (a as int == base + off && accepted_address(
            a,
        )),
        (base + off <= usize::MAX && accepted_address((base + off) as usize)) ==> valid_offset_addr(
            base,
            off,
        ) == Some((base + off) as usize),
{
}

} // verus!
