use horizon_pal::duration::Duration;
use horizon_pal::time::{Instant, SystemTime, Timespec};

#[test]
fn duration_new_carries_nanoseconds() {
    let d = Duration::new(1, 2_500_000_000);
    assert_eq!(d.as_secs(), 3);
    assert_eq!(d.subsec_nanos(), 500_000_000);
    assert_eq!(d.subsec_micros(), 500_000);
    assert_eq!(d.subsec_millis(), 500);
}

#[test]
fn duration_add_and_sub() {
    let a = Duration::new(1, 700_000_000);
    let b = Duration::new(0, 600_000_000);
    let s = a.checked_add(b).unwrap();
    assert_eq!(s, Duration::new(2, 300_000_000));
    assert_eq!(s.checked_sub(b), Some(a));
    assert_eq!(b.checked_sub(a), None);
    assert_eq!(b.saturating_sub(a), Duration::zero());
    assert_eq!(Duration::max_value().checked_add(Duration::from_nanos(1)), None);
    assert!(Duration::zero().is_zero());
    assert!(!Duration::from_nanos(1).is_zero());
}

#[test]
fn ticks_scale_to_nanoseconds() {
    let t = Instant::from_ticks(12);
    assert_eq!(t.checked_sub_instant(&Instant::zero()), Some(Duration::from_nanos(625)));
    let t = Instant::from_ticks(19_200_000);
    assert_eq!(t.checked_sub_instant(&Instant::zero()), Some(Duration::from_secs(1)));
    // no overflow at the top of the counter
    let t = Instant::from_ticks(u64::MAX);
    let d = t.checked_sub_instant(&Instant::zero()).unwrap();
    assert_eq!(d.as_secs(), 960_767_920_505);
    assert_eq!(d.subsec_nanos(), 705_813_281);
}

#[test]
fn instant_is_not_monotonic_across_sessions() {
    assert!(!Instant::actually_monotonic());
}

#[test]
fn instant_add_then_sub_round_trips() {
    let x = Instant::from_ticks(123_456_789);
    let d = Duration::new(7, 999_999_999);
    let y = x.checked_add_duration(&d).unwrap();
    assert_eq!(y.checked_sub_duration(&d), Some(x));
    assert_eq!(y.checked_sub_instant(&x), Some(d));
    assert_eq!(x.checked_sub_instant(&y), None);
    assert_eq!(Instant::zero().checked_sub_duration(&d), None);
}

#[test]
fn instant_add_overflows_to_none() {
    let x = Instant::from_ticks(1);
    let d = Duration::max_value();
    assert_eq!(x.checked_add_duration(&d), None);
}

#[test]
fn system_time_sub_time_both_ways() {
    let a = SystemTime::from_posixtime(100);
    let b = SystemTime::from_posixtime(40);
    assert_eq!(a.sub_time(&b), Ok(Duration::from_secs(60)));
    assert_eq!(b.sub_time(&a), Err(Duration::from_secs(60)));
    assert_eq!(a.sub_time(&a), Ok(Duration::zero()));
}

#[test]
fn system_time_add_then_sub_round_trips() {
    let x = SystemTime::from_posixtime(1_700_000_000);
    let d = Duration::new(3, 250);
    let y = x.checked_add_duration(&d).unwrap();
    assert_eq!(y.checked_sub_duration(&d), Some(x));
    assert_eq!(SystemTime::max_value().checked_add_duration(&Duration::from_nanos(1)), None);
    assert_eq!(SystemTime::unix_epoch().checked_sub_duration(&d), None);
    assert_eq!(SystemTime::min_value(), SystemTime::unix_epoch());
}

#[test]
fn timespec_add_carries_into_seconds() {
    let t = Timespec::new(5, 900_000_000);
    let r = t.checked_add_duration(&Duration::new(1, 200_000_000)).unwrap();
    assert_eq!(r.secs(), 7);
    assert_eq!(r.subsec_nanos(), 100_000_000);
    let z = Timespec::zero();
    assert_eq!(z.secs(), 0);
    assert_eq!(z.subsec_nanos(), 0);
}

#[test]
fn timespec_negative_seconds() {
    let t = Timespec::new(-2, 500_000_000);
    let r = t.checked_add_duration(&Duration::new(1, 0)).unwrap();
    assert_eq!(r.secs(), -1);
    assert_eq!(r.subsec_nanos(), 500_000_000);
}

#[test]
fn timespec_add_overflows_to_none() {
    let t = Timespec::new(i64::MAX, 999_999_999);
    assert_eq!(t.checked_add_duration(&Duration::from_nanos(1)), None);
    let t = Timespec::new(i64::MAX - 1, 0);
    assert_eq!(t.checked_add_duration(&Duration::from_secs(2)), None);
    assert!(t.checked_add_duration(&Duration::from_secs(1)).is_some());
}
