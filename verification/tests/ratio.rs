use batchimg::ratio::Ratio;

#[test]
fn new_rejects_zero_parts() {
    assert_eq!(Ratio::new(0, 7), None);
    assert_eq!(Ratio::new(5, 0), None);
    assert_eq!(Ratio::new(0, 0), None);
    assert_eq!(Ratio::new(5, 7), Some(Ratio { num: 5, den: 7 }));
}

#[test]
fn comparison_is_exact_cross_multiplication() {
    let five_sevenths = Ratio { num: 5, den: 7 };
    let one = Ratio { num: 1, den: 1 };
    assert!(five_sevenths.lt(&one));
    assert!(!one.lt(&five_sevenths));
    assert!(!five_sevenths.lt(&five_sevenths));
}

#[test]
fn equality_ignores_representation() {
    let a = Ratio { num: 2, den: 4 };
    let b = Ratio { num: 1, den: 2 };
    assert!(a.eq_ratio(&b));
    assert!(!a.lt(&b));
    assert!(!b.lt(&a));
    let c = Ratio { num: 3, den: 4 };
    assert!(!a.eq_ratio(&c));
}

#[test]
fn comparison_has_no_float_drift() {
    // Cross multiplication distinguishes ratios a float comparison may not.
    let a = Ratio { num: 1000000001, den: 1000000000 };
    let b = Ratio { num: 1, den: 1 };
    assert!(b.lt(&a));
    assert!(!a.lt(&b));
    assert!(!a.eq_ratio(&b));
}
