use shell_fur::ratio::Ratio;

#[test]
fn ratio_needs_a_denominator() {
    assert!(Ratio::new(1, 0).is_none());
    assert!(Ratio::new(0, 0).is_none());
    let r = Ratio::new(-3, 4).unwrap();
    assert_eq!(r.numerator(), -3);
    assert_eq!(r.denominator(), 4);
}

#[test]
fn whole_numbers_have_denominator_one() {
    let r = Ratio::whole(-7);
    assert_eq!((r.numerator(), r.denominator()), (-7, 1));
}

#[test]
fn ratios_compare_by_value() {
    let half = Ratio::new(1, 2).unwrap();
    let two_quarters = Ratio::new(2, 4).unwrap();
    let third = Ratio::new(1, 3).unwrap();
    assert!(half.same(&two_quarters));
    assert!(half.le(&two_quarters));
    assert!(!half.lt(&two_quarters));
    assert!(!half.same(&third));
    assert!(third.lt(&half));
    assert!(third.le(&half));
    assert!(!half.lt(&third));
    assert!(!half.le(&third));
}

#[test]
fn negative_ratios_compare_by_value() {
    let a = Ratio::new(-1, 2).unwrap();
    let b = Ratio::new(-1, 3).unwrap();
    assert!(a.lt(&b));
    assert!(!b.le(&a));
    assert!(a.lt(&Ratio::whole(0)));
    assert!(Ratio::new(0, 5).unwrap().same(&Ratio::new(0, 9).unwrap()));
}

#[test]
fn widest_ratios_compare_without_overflow() {
    let most = Ratio::new(i64::MAX, 1).unwrap();
    let least = Ratio::new(i64::MIN, 1).unwrap();
    let small = Ratio::new(1, u32::MAX).unwrap();
    let smaller = Ratio::new(-1, u32::MAX).unwrap();
    assert!(least.lt(&most));
    assert!(!most.le(&least));
    assert!(smaller.lt(&small));
    assert!(small.lt(&most));
    assert!(least.lt(&smaller));
    assert!(Ratio::new(i64::MAX, u32::MAX).unwrap().same(&Ratio::new(i64::MAX, u32::MAX).unwrap()));
    assert!(Ratio::new(i64::MIN, u32::MAX).unwrap().lt(&Ratio::new(i64::MAX, u32::MAX).unwrap()));
}
