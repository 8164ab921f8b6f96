use neon_core::ledger::{check_overlap, is_disjoint, slice_to_range, BorrowError, ByteRange, Ledger};
use neon_core::loans::{LoanError, LoanLedger};
use neon_core::text::u64_to_hex;

// A made-up address for the first byte of a buffer of `u8`.
const BASE: usize = 0x1000;

fn bytes(start: usize, end: usize) -> ByteRange {
    slice_to_range(BASE + start, end - start, 1)
}

// Ranges of 4-byte elements, as `vec![0; 16]` holds `i32`; the ranges are
// still byte ranges.
fn elems(start: usize, end: usize) -> ByteRange {
    slice_to_range(BASE + start * 4, end - start, 4)
}

#[test]
fn lock_test_overlapping_immutable_borrows() {
    let mut ledger = Ledger::default();
    let data_len = 128;

    ledger.try_borrow(bytes(0, 10)).unwrap();
    ledger.try_borrow(bytes(0, 100)).unwrap();
    ledger.try_borrow(bytes(20, data_len)).unwrap();
}

#[test]
fn lock_test_nonoverlapping_borrows() {
    let mut ledger = Ledger::default();
    let data_len = 16;

    let _a = ledger.try_borrow_mut(elems(0, 4)).unwrap();
    let _b = ledger.try_borrow(elems(4, data_len)).unwrap();
}

#[test]
fn lock_test_overlapping_borrows() {
    let mut ledger = Ledger::default();
    let a = elems(4, 8);
    let b = elems(6, 12);
    let ab = ledger.try_borrow(a).unwrap();

    // Should fail because it overlaps
    assert_eq!(ledger.try_borrow_mut(b).unwrap_err(), BorrowError::new());

    // Drop the first borrow
    ledger.release(ab);

    // Should succeed because previous borrow was dropped
    let bb = ledger.try_borrow_mut(b).unwrap();

    // Should fail because it overlaps
    assert_eq!(ledger.try_borrow(a).unwrap_err(), BorrowError::new());

    // Drop the second borrow
    ledger.release_mut(bb);

    // Should succeed because previous borrow was dropped
    let _ab = ledger.try_borrow(a).unwrap();
}

#[test]
fn napi_test_overlapping_immutable_borrows() {
    let mut ledger = Ledger::default();
    let data_len = 128;

    ledger.try_borrow(bytes(0, 10)).unwrap();
    ledger.try_borrow(bytes(0, 100)).unwrap();
    ledger.try_borrow(bytes(20, data_len)).unwrap();
}

#[test]
fn napi_test_nonoverlapping_borrows() {
    let mut ledger = Ledger::default();
    let data_len = 16;

    let _a = ledger.try_borrow_mut(elems(0, 4)).unwrap();
    let _b = ledger.try_borrow(elems(4, data_len)).unwrap();
}

#[test]
fn napi_test_overlapping_borrows() {
    let mut ledger = Ledger::default();
    let a = elems(4, 8);
    let b = elems(6, 12);
    let ab = ledger.try_borrow(a).unwrap();

    assert_eq!(ledger.try_borrow_mut(b).unwrap_err(), BorrowError::new());
    ledger.release(ab);
    let bb = ledger.try_borrow_mut(b).unwrap();
    assert_eq!(ledger.try_borrow(a).unwrap_err(), BorrowError::new());
    ledger.release_mut(bb);
    let _ab = ledger.try_borrow(a).unwrap();
}

#[test]
fn slice_to_range_counts_bytes() {
    let r = slice_to_range(100, 3, 8);
    assert_eq!(r, ByteRange { start: 100, end: 124 });
}

#[test]
fn adjacent_ranges_are_disjoint() {
    let a = ByteRange { start: 0, end: 4 };
    let b = ByteRange { start: 4, end: 8 };
    let c = ByteRange { start: 3, end: 5 };
    assert!(is_disjoint(&a, &b));
    assert!(is_disjoint(&b, &a));
    assert!(!is_disjoint(&a, &c));
    assert!(!is_disjoint(&c, &b));
}

#[test]
fn check_overlap_reports_any_overlap() {
    let existing = vec![ByteRange { start: 0, end: 4 }, ByteRange { start: 10, end: 20 }];
    assert!(check_overlap(&existing, &ByteRange { start: 4, end: 10 }).is_ok());
    assert_eq!(
        check_overlap(&existing, &ByteRange { start: 19, end: 30 }),
        Err(BorrowError::new())
    );
    assert!(check_overlap(&[], &ByteRange { start: 0, end: 100 }).is_ok());
}

#[test]
fn borrow_error_message() {
    let e = BorrowError::new();
    assert_eq!(e.message(), "Borrow overlaps with an active mutable borrow");
    assert_eq!(e.error_name(), "BorrowError");
}

#[test]
fn refused_borrow_leaves_ledger_unchanged() {
    let mut ledger = Ledger::new();
    let m = ledger.try_borrow_mut(bytes(0, 8)).unwrap();
    assert_eq!(ledger.owned_len(), 1);
    assert!(ledger.try_borrow(bytes(4, 6)).is_err());
    assert!(ledger.try_borrow_mut(bytes(7, 9)).is_err());
    assert_eq!(ledger.owned_len(), 1);
    assert_eq!(ledger.shared_len(), 0);
    assert_eq!(m.range(), bytes(0, 8));
}

#[test]
fn release_undoes_borrow() {
    let mut ledger = Ledger::new();
    let a = ledger.try_borrow(bytes(0, 8)).unwrap();
    let b = ledger.try_borrow(bytes(0, 8)).unwrap();
    assert_eq!(ledger.shared_len(), 2);
    ledger.release(b);
    assert_eq!(ledger.shared_len(), 1);
    assert!(ledger.try_borrow_mut(bytes(0, 8)).is_err());
    ledger.release(a);
    assert_eq!(ledger.shared_len(), 0);
    let m = ledger.try_borrow_mut(bytes(0, 8)).unwrap();
    assert_eq!(ledger.owned_len(), 1);
    ledger.release_mut(m);
    assert_eq!(ledger.owned_len(), 0);
}

#[test]
fn empty_range_borrows() {
    let mut ledger = Ledger::new();
    let _m = ledger.try_borrow_mut(bytes(0, 8)).unwrap();
    // An empty range at the end of a mutable borrow does not overlap it.
    assert!(ledger.try_borrow(bytes(8, 8)).is_ok());
}

#[test]
fn loans_shared_then_mutable() {
    let mut loans = LoanLedger::new();
    assert_eq!(loans.try_borrow(7), Ok(()));
    assert_eq!(loans.try_borrow(7), Ok(()));
    assert!(loans.is_frozen(7));
    assert_eq!(loans.try_borrow_mut(7), Err(LoanError::Frozen(7)));
    // One of the two immutable loans is still outstanding.
    loans.settle(7);
    assert!(loans.is_frozen(7));
    assert_eq!(loans.try_borrow_mut(7), Err(LoanError::Frozen(7)));
    loans.settle(7);
    assert!(!loans.is_frozen(7));
    assert_eq!(loans.try_borrow_mut(7), Ok(()));
    assert!(loans.is_mutating(7));
    assert_eq!(loans.try_borrow(7), Err(LoanError::Mutating(7)));
    assert_eq!(loans.try_borrow_mut(7), Err(LoanError::Mutating(7)));
    loans.settle_mut(7);
    assert!(!loans.is_mutating(7));
    assert_eq!(loans.try_borrow(7), Ok(()));
}

#[test]
fn settling_an_address_not_lent_changes_nothing() {
    let mut loans = LoanLedger::new();
    loans.settle(3);
    assert!(!loans.is_frozen(3));
    assert_eq!(loans.try_borrow(3), Ok(()));
    loans.settle(4);
    assert!(loans.is_frozen(3));
}

#[test]
fn loans_on_other_objects_are_independent() {
    let mut loans = LoanLedger::new();
    assert_eq!(loans.try_borrow_mut(1), Ok(()));
    assert_eq!(loans.try_borrow(2), Ok(()));
    assert_eq!(loans.try_borrow_mut(3), Ok(()));
    assert!(loans.is_mutating(1));
    assert!(loans.is_frozen(2));
    assert!(!loans.is_frozen(1));
}

#[test]
fn loan_error_messages() {
    assert_eq!(
        LoanError::Mutating(0x7ffd_5c00).message(),
        "outstanding mutable loan exists for object at 0x7ffd5c00"
    );
    assert_eq!(LoanError::Frozen(0).message(), "object at 0x0 is frozen");
    assert_eq!(LoanError::Frozen(0xdead_beef).message(), format!("object at {:#x} is frozen", 0xdead_beef_usize));
}

#[test]
fn hex_numerals() {
    assert_eq!(u64_to_hex(0), "0");
    assert_eq!(u64_to_hex(255), "ff");
    assert_eq!(u64_to_hex(u64::MAX), format!("{:x}", u64::MAX));
    assert_eq!(u64_to_hex(0x1234_abcd), "1234abcd");
}
