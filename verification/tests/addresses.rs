use lib::is_valid;
use lib::security::opaque_predicate;
use lib::utils::common::is_valid_ptr;
use lib::utils::mutation::opaque_branch_condition;

#[test]
fn is_valid_ptr_window_edges() {
    assert!(!is_valid_ptr(0));
    assert!(!is_valid_ptr(0x10000));
    assert!(is_valid_ptr(0x10001));
    assert!(is_valid_ptr(0x7FFF_FFFF_FFFE));
    assert!(!is_valid_ptr(0x7FFF_FFFF_FFFF));
    assert!(!is_valid_ptr(usize::MAX));
}

#[test]
fn is_valid_accepts_aligned_addresses_in_window() {
    assert!(is_valid(0x20000));
    assert!(is_valid(0x7FFF_FFFF_F000));
}

#[test]
fn is_valid_rejects_aligned_addresses_outside_window() {
    assert!(!is_valid(0));
    assert!(!is_valid(0x1000));
    assert!(!is_valid(0x10000));
    assert!(!is_valid(0x8000_0000_0000));
}

#[test]
fn is_valid_accepts_every_unaligned_address() {
    assert!(is_valid(1));
    assert!(is_valid(0xFFF));
    assert!(is_valid(0x7FFF_FFFF_FFFF));
    assert!(is_valid(usize::MAX));
}

#[test]
fn is_valid_extends_is_valid_ptr() {
    for addr in [0usize, 1, 0x1000, 0x10000, 0x10001, 0x20000, 0x7FFF_FFFF_F000, 0x8000_0000_0000] {
        if is_valid_ptr(addr) {
            assert!(is_valid(addr));
        }
        if addr & 0xFFF == 0 {
            assert_eq!(is_valid(addr), is_valid_ptr(addr));
        }
    }
}

#[test]
fn opaque_predicates_always_hold() {
    assert!(opaque_predicate());
    for seed in [0usize, 1, 0xFF, 0x5F37_59DF, usize::MAX] {
        assert!(opaque_branch_condition(seed));
    }
}
