use democracy::ratio::Ratio;

#[test]
fn ratio_must_lie_above_zero_and_within_one() {
    assert_eq!(Ratio::new(6, 10), Some(Ratio { num: 6, den: 10 }));
    assert_eq!(Ratio::new(1, 1), Some(Ratio { num: 1, den: 1 }));
    assert_eq!(Ratio::new(0, 10), None);
    assert_eq!(Ratio::new(11, 10), None);
    assert_eq!(Ratio::new(0, 0), None);
    assert_eq!(Ratio::new(1, 0), None);
}

#[test]
fn scale_rounds_up() {
    let target = Ratio::new(6, 10).unwrap();
    assert_eq!(target.scale(0), 0);
    assert_eq!(target.scale(1), 1);
    assert_eq!(target.scale(2), 2);
    assert_eq!(target.scale(3), 2);
    assert_eq!(target.scale(5), 3);
    assert_eq!(target.scale(10), 6);
    assert_eq!(target.scale(127), 77);
}

#[test]
fn scale_by_one_is_the_count() {
    let all = Ratio::new(7, 7).unwrap();
    assert_eq!(all.scale(0), 0);
    assert_eq!(all.scale(9), 9);
    assert_eq!(all.scale(127), 127);
}

#[test]
fn scale_by_a_small_fraction_is_one_for_any_voter() {
    let tiny = Ratio::new(1, u32::MAX).unwrap();
    assert_eq!(tiny.scale(1), 1);
    assert_eq!(tiny.scale(127), 1);
    let most = Ratio::new(u32::MAX - 1, u32::MAX).unwrap();
    assert_eq!(most.scale(127), 127);
}
