use ndless_core::error::{Error, ErrorKind, ErrorPayload, OutOfRangeError, RawClockError};

#[test]
fn is_reports_the_carried_type() {
    let e = Error::RawClock(RawClockError { code: -3 });
    assert!(e.is::<RawClockError>());
    assert!(!e.is::<OutOfRangeError>());
    let e = Error::OutOfRange(OutOfRangeError { past_max: true });
    assert!(!e.is::<RawClockError>());
    assert!(e.is::<OutOfRangeError>());
}

#[test]
fn downcast_ref_borrows_the_payload() {
    let e = Error::RawClock(RawClockError { code: 17 });
    let p = e.downcast_ref::<RawClockError>().expect("the carried type matches");
    assert_eq!(p.code, 17);
    assert!(e.downcast_ref::<OutOfRangeError>().is_none());
}

#[test]
fn downcast_mut_borrows_the_payload() {
    let mut e = Error::OutOfRange(OutOfRangeError { past_max: false });
    assert!(e.downcast_mut::<RawClockError>().is_none());
    let p = e.downcast_mut::<OutOfRangeError>().expect("the carried type matches");
    assert!(!p.past_max);
    p.past_max = true;
    assert_eq!(e, Error::OutOfRange(OutOfRangeError { past_max: true }));
}

#[test]
fn downcast_takes_the_payload_out() {
    let e = Error::RawClock(RawClockError { code: 5 });
    let p = e.downcast::<RawClockError>().expect("the carried type matches");
    assert_eq!(p, RawClockError { code: 5 });
    let e = Error::RawClock(RawClockError { code: 5 });
    let back = e.downcast::<OutOfRangeError>().expect_err("the carried type differs");
    assert_eq!(back, e);
}

#[test]
fn kind_of_tags_each_payload() {
    assert_eq!(Error::RawClock(RawClockError { code: 0 }).kind_of(), ErrorKind::RawClock);
    assert_eq!(
        Error::OutOfRange(OutOfRangeError { past_max: false }).kind_of(),
        ErrorKind::OutOfRange
    );
}

#[test]
fn erase_then_downcast_round_trip() {
    let p = RawClockError { code: 99 };
    let e = p.into_error();
    assert!(e.is::<RawClockError>());
    assert_eq!(e.downcast::<RawClockError>(), Ok(p));
    let p = OutOfRangeError { past_max: true };
    let e = p.into_error();
    assert_eq!(e.downcast_ref::<OutOfRangeError>(), Some(&p));
}
