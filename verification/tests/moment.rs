use simxiv::Moment;
use std::cmp::Ordering;

#[test]
fn adds_ok() {
    let new_time = Moment::new(3, 400) + Moment::new(0, 400);
    assert_eq!(new_time.s, 3);
    assert_eq!(new_time.m, 800);
    let new_time_with_overflow = Moment::new(3, 400) + Moment::new(2, 900);
    assert_eq!(new_time_with_overflow.s, 6);
    assert_eq!(new_time_with_overflow.m, 300);
}

#[test]
fn new_keeps_both_parts() {
    let t = Moment::new(-4, 1250);
    assert_eq!(t.s, -4);
    assert_eq!(t.m, 1250);
    assert_eq!(Moment::zero(), Moment::new(0, 0));
}

#[test]
fn sum_carries_exactly_at_one_thousand() {
    assert_eq!(Moment::new(0, 999) + Moment::new(0, 1), Moment::new(1, 0));
    assert_eq!(Moment::new(0, 999) + Moment::new(0, 0), Moment::new(0, 999));
    assert_eq!(Moment::new(0, 999) + Moment::new(0, 999), Moment::new(1, 998));
    assert_eq!(Moment::new(0, 0) + Moment::new(0, 0), Moment::new(0, 0));
}

#[test]
fn sum_normalizes_parts_that_were_not() {
    assert_eq!(Moment::new(1, 1500) + Moment::new(0, 1700), Moment::new(4, 200));
    assert_eq!(Moment::new(5, -1) + Moment::new(0, 0), Moment::new(4, 999));
    assert_eq!(Moment::new(5, -1000) + Moment::new(0, 0), Moment::new(4, 0));
    assert_eq!(Moment::new(5, -1001) + Moment::new(0, 0), Moment::new(3, 999));
    assert_eq!(Moment::new(0, i32::MAX) + Moment::new(0, i32::MAX), Moment::new(4294967, 294));
}

#[test]
fn sum_subseconds_stay_in_range_over_many_steps() {
    let step = Moment::new(0, 100);
    let mut t = Moment::new(0, 0);
    for _ in 0..12345 {
        t = t + step;
        assert!(0 <= t.m && t.m < 1000);
    }
    assert_eq!(t, Moment::new(1234, 500));
}

#[test]
fn checked_add_refuses_what_does_not_fit() {
    assert_eq!(Moment::new(i32::MAX, 999).checked_add(Moment::new(0, 1)), None);
    assert_eq!(
        Moment::new(i32::MAX, 998).checked_add(Moment::new(0, 1)),
        Some(Moment::new(i32::MAX, 999))
    );
    assert_eq!(Moment::new(i32::MIN, 0).checked_add(Moment::new(0, -1)), None);
    assert_eq!(Moment::new(i32::MIN, 0).checked_add(Moment::new(-1, 1000)), Some(Moment::new(i32::MIN, 0)));
    assert_eq!(Moment::new(3, 400).checked_add(Moment::new(2, 900)), Some(Moment::new(6, 300)));
}

#[test]
fn checked_after_refuses_negative_spans() {
    let now = Moment::new(10, 0);
    assert_eq!(now.checked_after(Moment::new(-1, 0)), None);
    assert_eq!(now.checked_after(Moment::new(0, -1)), None);
    assert_eq!(now.checked_after(Moment::new(0, 0)), Some(now));
    assert_eq!(now.checked_after(Moment::new(2, 500)), Some(Moment::new(12, 500)));
    assert_eq!(Moment::new(i32::MAX, 0).checked_after(Moment::new(1, 0)), None);
}

#[test]
fn order_compares_seconds_then_subseconds() {
    let a = Moment::new(1, 900);
    let b = Moment::new(2, 0);
    let c = Moment::new(2, 1);
    assert!(a < b && b < c && a < c);
    assert!(c > a);
    assert!(b <= b && b >= b);
    assert!(!(b < b));
    assert_eq!(a.partial_cmp(&b), Some(Ordering::Less));
    assert_eq!(c.partial_cmp(&b), Some(Ordering::Greater));
    assert_eq!(b.partial_cmp(&Moment::new(2, 0)), Some(Ordering::Equal));
    assert!(a.is_before(&b) && !b.is_before(&a) && !b.is_before(&b));
    assert!(a.is_at_or_before(&b) && b.is_at_or_before(&b) && !c.is_at_or_before(&b));
}
