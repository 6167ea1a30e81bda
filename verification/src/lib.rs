//! Address validation, API-name hashing and export-table lookup for a
//! module-scanning overlay, with every function proved against its contract.

pub mod features;
pub mod overlay;
pub mod sdk;
pub mod security;
pub mod utils;

use vstd::prelude::*;

use crate::security::opaque_predicate;
use crate::utils::common::user_space_address;

verus! {

/// The acceptance rule of `is_valid`: an address in the user-mode window, or
/// one whose low twelve bits are not all zero.
pub open spec fn accepted_address(addr: usize) -> bool {
    user_space_address(addr as int) || (addr & 0xFFF) != 0
}

/// The address check that the overlay applies before it follows a pointer.
/// It starts from the user-mode window (strictly above `0x10000`, strictly
/// below `0x7FFF_FFFF_FFFF`), narrows it to page-aligned addresses and then
/// widens it again by every address that is not page-aligned; since the guard
/// around those two steps always holds, an address passes when it lies in the
/// window or its low twelve bits are not all zero.
pub fn is_valid(addr: usize) -> (r: bool)
    ensures
        r == accepted_address(addr),
{
    let mut result: bool = addr > 0x10000 && (addr as u64) < 0x7FFF_FFFF_FFFFu64;
    if opaque_predicate() {
        result = result && (addr & 0xFFF) == 0;
        result = result || (addr & 0xFFF) != 0;
    }
    result
}

/// Every address that `is_valid_ptr` accepts, `is_valid` accepts too, and on
/// page-aligned addresses the two checks agree.
pub proof fn lemma_is_valid_extends_is_valid_ptr(addr: usize)
    ensures
        user_space_address(addr as int) ==> accepted_address(addr),
        (addr & 0xFFF) == 0 ==> (accepted_address(addr) == user_space_address(addr as int)),
{
}

/// In plain arithmetic: an address passes `is_valid` exactly when it lies
/// strictly between `0x10000` and `0x7FFF_FFFF_FFFF` or is not a multiple of
/// 4096.
pub proof fn lemma_accepted_address_arith(addr: usize)
    ensures
        accepted_address(addr) <==> ((0x10000 < addr && addr < 0x7FFF_FFFF_FFFF) || addr % 4096
            != 0),
{
    assert((addr & 0xFFF) == addr % 4096) by (bit_vector);
}

} // verus!
