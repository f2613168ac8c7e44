use std::collections::hash_map::DefaultHasher;
use std::hash::{Hash, Hasher};

use ndless_core::duration::Duration;
use ndless_core::instant::Instant;
use ndless_core::system_time::{unix_epoch, SystemTime};
use ndless_core::timespec::Timespec;

#[test]
fn difference_with_borrow() {
    // 5.000000200 - 3.500000000 = 1.500000200: the borrow fires because
    // 200 < 500_000_000.
    let t1 = Timespec::new(5, 200);
    let t2 = Timespec::new(3, 500_000_000);
    let d = t1.sub_timespec(&t2).expect("t1 is later");
    assert_eq!(d.as_secs(), 1);
    assert_eq!(d.subsec_nanos(), 500_000_200);
}

#[test]
fn difference_without_borrow() {
    let t1 = Timespec::new(5, 700_000_000);
    let t2 = Timespec::new(3, 500_000_000);
    let d = t1.sub_timespec(&t2).expect("t1 is later");
    assert_eq!(d.as_secs(), 2);
    assert_eq!(d.subsec_nanos(), 200_000_000);
}

#[test]
fn difference_symmetry() {
    let a = Timespec::new(5, 200);
    let b = Timespec::new(3, 500_000_000);
    let forward = a.sub_timespec(&b).expect("a is later");
    let backward = b.sub_timespec(&a).expect_err("b is earlier");
    assert_eq!(forward, backward);
}

#[test]
fn difference_of_equal_values_is_forward_zero() {
    let a = Timespec::new(42, 7);
    let b = Timespec::new(42, 7);
    let d = a.sub_timespec(&b).expect("equal values run forward");
    assert_eq!(d.as_secs(), 0);
    assert_eq!(d.subsec_nanos(), 0);
    let d = b.sub_timespec(&a).expect("equal values run forward");
    assert_eq!(d.as_secs(), 0);
    assert_eq!(d.subsec_nanos(), 0);
}

#[test]
fn add_carries_into_seconds() {
    let t = Timespec::new(0, 900_000_000);
    let d = Duration::new(0, 200_000_000);
    let r = t.checked_add_duration(&d).expect("no overflow");
    assert_eq!(r.seconds, 1);
    assert_eq!(r.nanoseconds, 100_000_000);
}

#[test]
fn add_overflows_at_max_seconds() {
    let t = Timespec::new(i64::MAX, 0);
    let d = Duration::new(1, 0);
    assert!(t.checked_add_duration(&d).is_none());
}

#[test]
fn add_overflow_via_carry() {
    // The seconds sum alone fits, but the nanosecond carry pushes it past
    // the maximum.
    let t = Timespec::new(i64::MAX, 999_999_999);
    let d = Duration::new(0, 1);
    assert!(t.checked_add_duration(&d).is_none());
    // Without the carry the same seconds value is fine.
    let d = Duration::new(0, 0);
    assert!(t.checked_add_duration(&d).is_some());
}

#[test]
fn add_huge_duration_to_negative_time() {
    // A duration of more than i64::MAX seconds can still land in range when
    // the start lies far before the epoch.
    let t = Timespec::new(i64::MIN, 0);
    let d = Duration::new(u64::MAX, 0);
    let r = t.checked_add_duration(&d).expect("lands just below the maximum");
    assert_eq!(r.seconds, i64::MAX);
    assert_eq!(r.nanoseconds, 0);
}

#[test]
fn sub_borrows_from_seconds() {
    let t = Timespec::new(1, 100);
    let d = Duration::new(0, 200);
    let r = t.checked_sub_duration(&d).expect("no underflow");
    assert_eq!(r.seconds, 0);
    assert_eq!(r.nanoseconds, 999_999_900);
}

#[test]
fn sub_underflows_below_min_seconds() {
    let t = Timespec::new(i64::MIN, 0);
    assert!(t.checked_sub_duration(&Duration::new(1, 0)).is_none());
    assert!(t.checked_sub_duration(&Duration::new(0, 1)).is_none());
    let r = t.checked_sub_duration(&Duration::new(0, 0)).expect("subtracting nothing");
    assert_eq!(r, t);
}

#[test]
fn add_sub_round_trip() {
    let t = Timespec::new(7, 800_000_000);
    let d = Duration::new(2, 600_000_000);
    let s = t.checked_add_duration(&d).expect("no overflow");
    assert_eq!(s.seconds, 10);
    assert_eq!(s.nanoseconds, 400_000_000);
    let r = s.checked_sub_duration(&d).expect("subtraction of what was added");
    assert_eq!(r, t);
}

#[test]
fn normalization_holds_on_every_path() {
    let cases = [
        Timespec::zero(),
        Timespec::new(-3, 999_999_999),
        Timespec::new(5, 200)
            .checked_add_duration(&Duration::new(1, 999_999_999))
            .expect("no overflow"),
        Timespec::new(5, 200)
            .checked_sub_duration(&Duration::new(1, 999_999_999))
            .expect("no underflow"),
    ];
    for t in cases {
        assert!(t.nanoseconds < 1_000_000_000);
    }
}

#[test]
fn timespec_total_order_is_lexicographic() {
    let a = Timespec::new(3, 999_999_999);
    let b = Timespec::new(4, 0);
    assert!(a < b);
    assert!(b > a);
    assert!(a <= Timespec::new(3, 999_999_999));
    assert_eq!(a, Timespec::new(3, 999_999_999));
    assert_ne!(a, b);
    let c = Timespec::new(-1, 999_999_999);
    let d = Timespec::new(0, 0);
    assert!(c < d);
}

#[test]
fn duration_new_carries_whole_seconds() {
    let d = Duration::new(1, 2_500_000_000);
    assert_eq!(d.as_secs(), 3);
    assert_eq!(d.subsec_nanos(), 500_000_000);
}

#[test]
fn duration_from_secs_has_no_fraction() {
    let d = Duration::from_secs(9);
    assert_eq!(d.as_secs(), 9);
    assert_eq!(d.subsec_nanos(), 0);
}

#[test]
fn instant_elapsed_and_offsets() {
    let earlier = Instant::from_secs_micros(100, 250_000);
    let later = Instant::from_secs_micros(101, 0);
    let d = later.checked_sub_instant(&earlier).expect("later is later");
    assert_eq!(d.as_secs(), 0);
    assert_eq!(d.subsec_nanos(), 750_000_000);
    // The raw source moved backward: the elapsed span is absent, not a lie.
    assert!(earlier.checked_sub_instant(&later).is_none());
    let moved = earlier.checked_add_duration(&d).expect("no overflow");
    assert_eq!(moved, later);
    let back = moved.checked_sub_duration(&d).expect("no underflow");
    assert_eq!(back, earlier);
}

#[test]
fn wall_clock_directional_difference() {
    let newer = SystemTime::from_secs_nanos(20, 5);
    let older = SystemTime::from_secs_nanos(19, 6);
    let d = newer.sub_time(&older).expect("newer is at or after older");
    assert_eq!(d.as_secs(), 0);
    assert_eq!(d.subsec_nanos(), 999_999_999);
    let d = older.sub_time(&newer).expect_err("older comes first");
    assert_eq!(d.as_secs(), 0);
    assert_eq!(d.subsec_nanos(), 999_999_999);
    let same = newer.sub_time(&SystemTime::from_secs_nanos(20, 5)).expect("equal readings");
    assert_eq!(same.as_secs(), 0);
    assert_eq!(same.subsec_nanos(), 0);
}

#[test]
fn wall_clock_before_epoch() {
    let t = SystemTime::from_secs_nanos(-5, 250);
    let d = t.sub_time(&unix_epoch()).expect_err("t lies before the epoch");
    assert_eq!(d.as_secs(), 4);
    assert_eq!(d.subsec_nanos(), 999_999_750);
}

#[test]
fn micros_layout_scales_to_nanoseconds() {
    let t = SystemTime::from_secs_micros(10, 250);
    assert_eq!(t.t.seconds, 10);
    assert_eq!(t.t.nanoseconds, 250_000);
    let i = Instant::from_secs_micros(10, 250);
    assert_eq!(i.t.seconds, 10);
    assert_eq!(i.t.nanoseconds, 250_000);
}

#[test]
fn whole_seconds_layout_has_zero_fraction() {
    let t = SystemTime::from_secs(77);
    assert_eq!(t.t.seconds, 77);
    assert_eq!(t.t.nanoseconds, 0);
}

#[test]
fn epoch_is_zero() {
    let e = unix_epoch();
    assert_eq!(e.t, Timespec::zero());
    assert_eq!(e, SystemTime::from_secs(0));
}

#[test]
fn wall_clock_offsets() {
    let t = SystemTime::from_secs_nanos(50, 900_000_000);
    let d = Duration::new(0, 200_000_000);
    let fwd = t.checked_add_duration(&d).expect("no overflow");
    assert_eq!(fwd.t.seconds, 51);
    assert_eq!(fwd.t.nanoseconds, 100_000_000);
    let back = fwd.checked_sub_duration(&d).expect("no underflow");
    assert_eq!(back, t);
}

#[test]
fn equal_timestamps_hash_alike() {
    let a = Timespec::new(8, 123);
    let b = Timespec::new(8, 123);
    let mut ha = DefaultHasher::new();
    let mut hb = DefaultHasher::new();
    a.hash(&mut ha);
    b.hash(&mut hb);
    assert_eq!(ha.finish(), hb.finish());
}

#[test]
fn elapsed_since_keeps_the_direction_tag() {
    let earlier = Instant::from_secs_nanos(100, 0);
    let later = Instant::from_secs_nanos(100, 42);
    let d = later.elapsed_since(&earlier).expect("forward");
    assert_eq!(d.as_secs(), 0);
    assert_eq!(d.subsec_nanos(), 42);
    let d = earlier.elapsed_since(&later).expect_err("the clock ran backward");
    assert_eq!(d.as_secs(), 0);
    assert_eq!(d.subsec_nanos(), 42);
}
