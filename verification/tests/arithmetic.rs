use peano::natural::Natural;

#[test]
fn sum_one_one_is_two() {
    let r = Natural::from_u64(1).add(Natural::from_u64(1));
    assert!(r.congruent_to(&Natural::from_u64(2)));
}

#[test]
fn sum_one_two_is_three() {
    let r = Natural::from_u64(1).add(Natural::from_u64(2));
    assert!(r.congruent_to(&Natural::from_u64(3)));
}

#[test]
fn sum_two_two_is_four() {
    let r = Natural::from_u64(2).add(Natural::from_u64(2));
    assert!(r.congruent_to(&Natural::from_u64(4)));
}

#[test]
fn sum_two_three_is_five() {
    let r = Natural::from_u64(2).add(Natural::from_u64(3));
    assert!(r.congruent_to(&Natural::from_u64(5)));
}

#[test]
fn sum_zero_is_identity_both_sides() {
    let r = Natural::from_u64(5).add(Natural::Zero);
    assert!(r.congruent_to(&Natural::from_u64(5)));
    let l = Natural::Zero.add(Natural::from_u64(5));
    assert!(l.congruent_to(&Natural::from_u64(5)));
}

#[test]
fn sum_commutes_on_sample() {
    let l = Natural::from_u64(2).add(Natural::from_u64(5));
    let r = Natural::from_u64(5).add(Natural::from_u64(2));
    assert!(l.congruent_to(&r));
}

#[test]
fn sum_associates_on_sample() {
    let l = Natural::from_u64(1).add(Natural::from_u64(2)).add(Natural::from_u64(3));
    let r = Natural::from_u64(1).add(Natural::from_u64(2).add(Natural::from_u64(3)));
    assert!(l.congruent_to(&r));
    assert_eq!(l.reify(), 6);
}

#[test]
fn difference_three_one_is_two() {
    let r = Natural::from_u64(3).subtract(Natural::from_u64(1));
    assert!(r.unwrap().congruent_to(&Natural::from_u64(2)));
}

#[test]
fn difference_four_four_is_zero() {
    let r = Natural::from_u64(4).subtract(Natural::from_u64(4));
    assert!(r.unwrap().congruent_to(&Natural::Zero));
}

#[test]
fn difference_zero_zero_is_zero() {
    let r = Natural::Zero.subtract(Natural::Zero);
    assert!(r.unwrap().congruent_to(&Natural::Zero));
}

#[test]
fn difference_underflow_does_not_resolve() {
    let r = Natural::Zero.subtract(Natural::Successor(Box::new(Natural::Zero)));
    assert!(r.is_none());
    let s = Natural::from_u64(2).subtract(Natural::from_u64(6));
    assert!(s.is_none());
}

#[test]
fn difference_sum_round_trip_on_sample() {
    let five = Natural::from_u64(5);
    let two = Natural::from_u64(2);
    assert!(two.is_less_than_or_equal(&five));
    let diff = five.duplicate().subtract(two.duplicate()).unwrap();
    assert!(diff.add(two).congruent_to(&five));
}

#[test]
fn product_one_one_is_one() {
    let r = Natural::from_u64(1).multiply(&Natural::from_u64(1));
    assert!(r.congruent_to(&Natural::from_u64(1)));
}

#[test]
fn product_two_two_is_four() {
    let r = Natural::from_u64(2).multiply(&Natural::from_u64(2));
    assert!(r.congruent_to(&Natural::from_u64(4)));
}

#[test]
fn product_two_three_is_six() {
    let r = Natural::from_u64(2).multiply(&Natural::from_u64(3));
    assert!(r.congruent_to(&Natural::from_u64(6)));
}

#[test]
fn product_by_zero_is_zero() {
    let r = Natural::from_u64(5).multiply(&Natural::Zero);
    assert!(r.congruent_to(&Natural::Zero));
}

#[test]
fn product_by_one_is_identity() {
    let r = Natural::from_u64(5).multiply(&Natural::from_u64(1));
    assert!(r.congruent_to(&Natural::from_u64(5)));
}
