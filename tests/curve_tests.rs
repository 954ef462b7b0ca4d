use hycy::curve::{curve_point, roll_transform, rotate, sum_phases, PhaseSum};

#[test]
fn rotate_reduces_into_one_turn() {
    let r = rotate(8, 10);
    assert_eq!(r.steps, 8);
    assert_eq!(r.angles, vec![2]);
}

#[test]
fn sum_phases_adds_closing_term() {
    let r = sum_phases(8, &vec![1, 2, 3]);
    assert_eq!(r.steps, 8);
    assert_eq!(r.angles, vec![1, 2, 3, 2]);
}

#[test]
fn sum_phases_reduces_each_phase() {
    let r = sum_phases(5, &vec![7, 13]);
    assert_eq!(r.angles, vec![2, 3, 0]);
}

#[test]
fn sum_phases_of_nothing_is_one() {
    let r = sum_phases(8, &vec![]);
    assert_eq!(r.angles, vec![0]);
}

#[test]
fn curve_point_exact_terms() {
    let r = curve_point(10, 3, 2);
    assert_eq!(r.steps, 10);
    assert_eq!(r.angles, vec![2, 2, 2, 4]);
}

#[test]
fn curve_point_equals_sum_phases_of_equal_phases() {
    assert_eq!(curve_point(9, 4, 5).angles, sum_phases(9, &vec![5, 5, 5, 5]).angles);
}

#[test]
fn curve_point_has_order_plus_one_terms() {
    for n in 1..8usize {
        let r = curve_point(10000, n, 1234);
        assert_eq!(r.angles.len(), n + 1);
        assert!(r.angles.iter().all(|a| *a < 10000));
    }
}

#[test]
fn curve_point_at_zero_is_order_plus_one() {
    for n in 1..8usize {
        let r = curve_point(10000, n, 0);
        assert_eq!(r.angles, vec![0u64; n + 1]);
    }
}

#[test]
fn curve_point_is_periodic() {
    for t in 0..30u64 {
        assert_eq!(curve_point(12, 5, t).angles, curve_point(12, 5, t + 12).angles);
    }
}

#[test]
fn curve_point_large_values() {
    let r = curve_point(u64::MAX, 3, u64::MAX - 1);
    assert_eq!(r.angles, vec![u64::MAX - 1, u64::MAX - 1, u64::MAX - 1, 3]);
}

#[test]
fn roll_by_zero_adds_unit() {
    let p = PhaseSum { steps: 8, angles: vec![3, 5, 7] };
    let r = roll_transform(0, 4, &p);
    assert_eq!(r.steps, 8);
    assert_eq!(r.angles, vec![3, 5, 7, 0]);
}

#[test]
fn roll_turns_terms_and_compensates() {
    let p = PhaseSum { steps: 8, angles: vec![1, 7] };
    let r = roll_transform(3, 2, &p);
    assert_eq!(r.angles, vec![4, 2, 2]);
}
