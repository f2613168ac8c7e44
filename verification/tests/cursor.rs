use ndless_core::cursor::{wrap_cursor, Cursor};

#[test]
fn wrap_cursor_records_handle_and_ownership() {
    let c = wrap_cursor(0x20_0000, false);
    assert_eq!(c.raw, 0x20_0000);
    assert!(!c.owned);
    let c = wrap_cursor(1, true);
    assert_eq!(c.raw, 1);
    assert!(c.owned);
}

#[test]
fn from_created_rejects_a_null_handle() {
    assert!(Cursor::from_created(0).is_none());
}

#[test]
fn from_created_owns_a_real_handle() {
    let c = Cursor::from_created(0x1234).expect("nonzero handle");
    assert_eq!(c.raw, 0x1234);
    assert!(c.owned);
}
