use shell_commander::text::decimal_string;
use shell_commander::{CheckoutProgress, CloneProgressState, ProgressEvent, TransferProgress};

fn transfer(received: u64, total: u64, indexed: u64, bytes: u64) -> TransferProgress {
    TransferProgress {
        received_objects: received,
        total_objects: total,
        indexed_objects: indexed,
        indexed_deltas: 3,
        total_deltas: 9,
        received_bytes: bytes,
    }
}

#[test]
fn composite_line_is_exact() {
    let mut s = CloneProgressState::new();
    let out = s.on_transfer(transfer(50, 200, 25, 10240));
    assert_eq!(
        out,
        "net  25% (  10 kb,    50/  200)  /  idx  12% (   25/  200)  /  chk   0% (   0/   0) \r"
    );
    assert!(!s.transfer_complete);
}

#[test]
fn checkout_fields_show_in_line() {
    let mut s = CloneProgressState::new();
    s.on_transfer(transfer(1, 4, 0, 0));
    let out = s.on_checkout(CheckoutProgress { path: Some("src/lib.rs".into()), current: 1, total: 3 });
    assert_eq!(
        out,
        "net  25% (   0 kb,     1/    4)  /  idx   0% (    0/    4)  /  chk  33% (   1/   3) src/lib.rs\r"
    );
}

#[test]
fn completion_newline_once_then_resolving() {
    let mut s = CloneProgressState::new();
    s.on_transfer(transfer(1, 2, 1, 0));
    let first = s.on_transfer(transfer(2, 2, 2, 2048));
    assert_eq!(first, "\nResolving deltas 3/9\r");
    assert!(s.transfer_complete);
    let again = s.on_transfer(transfer(2, 2, 2, 2048));
    assert_eq!(again, "Resolving deltas 3/9\r");
    let co = s.on_event(ProgressEvent::Checkout(CheckoutProgress { path: None, current: 1, total: 5 }));
    assert_eq!(co, "Resolving deltas 3/9\r");
    let later = s.on_event(ProgressEvent::Transfer(transfer(1, 2, 1, 0)));
    assert_eq!(later, "Resolving deltas 3/9\r");
    assert!(s.transfer_complete);
}

#[test]
fn checkout_before_transfer_does_not_divide_by_zero() {
    let mut s = CloneProgressState::new();
    let out = s.on_checkout(CheckoutProgress { path: None, current: 0, total: 0 });
    assert_eq!(
        out,
        "net   0% (   0 kb,     0/    0)  /  idx   0% (    0/    0)  /  chk   0% (   0/   0) \r"
    );
}

#[test]
fn wide_numbers_are_not_cut() {
    let mut s = CloneProgressState::new();
    let out = s.on_transfer(transfer(123456, 1234567, 7, 5 * 1024 * 1024));
    assert!(out.starts_with("net   9% (5120 kb, 123456/1234567)"));
}

#[test]
fn decimal_of_extremes() {
    assert_eq!(decimal_string(0), "0");
    assert_eq!(decimal_string(7), "7");
    assert_eq!(decimal_string(10), "10");
    assert_eq!(decimal_string(u64::MAX as u128), "18446744073709551615");
    assert_eq!(decimal_string(u128::MAX), u128::MAX.to_string());
}
