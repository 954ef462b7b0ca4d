//! The curve family: sums of unit rotations closed by a compensating term.
//!
//! Angles are exact: an angle is a whole number of steps, where `steps` steps
//! make one full turn, so the angle `a` stands for the rotation `e^{2πi·a/steps}`.
//! A point of the plane is held as the list of unit rotations whose sum it is;
//! every angle in the list is reduced into `0..steps`.
use vstd::arithmetic::div_mod::{
    lemma_add_mod_noop,
    lemma_add_mod_noop_right,
    lemma_mod_bound,
    lemma_mod_add_multiples_vanish,
    lemma_mul_mod_noop,
    lemma_small_mod,
    lemma_sub_mod_noop_right,
};
use vstd::prelude::*;

verus! {

/// A point of the plane, written as a sum of unit rotations.
#[derive(Debug)]
pub struct PhaseSum {
    /// How many steps make one full turn.
    pub steps: u64,
    /// The angle of each unit rotation, in steps, each below `steps`.
    pub angles: Vec<u64>,
}

/// The angle `a` reduced into `0..steps`.
pub open spec fn wrap(a: int, steps: u64) -> u64 {
    (a % (steps as int)) as u64
}

/// The sum of a list of angles.
pub open spec fn total(phis: Seq<u64>) -> int
    decreases phis.len(),
{
    if phis.len() == 0 {
        0
    } else {
        total(phis.drop_last()) + phis.last()
    }
}

/// The single rotation by `t`.
pub open spec fn rotate_spec(steps: u64, t: int) -> Seq<u64> {
    seq![wrap(t, steps)]
}

/// One rotation per phase, then the rotation by minus their total.
pub open spec fn sum_phases_spec(steps: u64, phis: Seq<u64>) -> Seq<u64> {
    phis.map_values(|p: u64| wrap(p as int, steps)).push(wrap(-total(phis), steps))
}

/// `n` rotations by `t`, then the rotation by `-n·t`.
pub open spec fn curve_point_spec(steps: u64, n: nat, t: int) -> Seq<u64> {
    Seq::new(n, |j: int| wrap(t, steps)).push(wrap(-(n * t), steps))
}

/// Every term of `point` turned by `phi`, then the rotation by `-k·phi`.
pub open spec fn roll_spec(steps: u64, phi: int, k: int, point: Seq<u64>) -> Seq<u64> {
    point.map_values(|a: u64| wrap(a + phi, steps)).push(wrap(-(k * phi), steps))
}

impl PhaseSum {
    /// Every angle lies within one turn.
    pub open spec fn wf(&self) -> bool {
        &&& self.steps >= 1
        &&& forall|i: int| 0 <= i < self.angles.len() ==> #[trigger] self.angles[i] < self.steps
    }
}

proof fn lemma_neg_mod(x: int, m: int)
    requires
        m > 0,
    ensures
        (-x) % m == if x % m == 0 { 0 } else { m - x % m },
{
    lemma_sub_mod_noop_right(0, x, m);
    lemma_mod_bound(x, m);
    let r = x % m;
    if r == 0 {
        lemma_small_mod(0, m as nat);
    } else {
        lemma_mod_add_multiples_vanish(-r, m);
        lemma_small_mod((m - r) as nat, m as nat);
    }
}

proof fn lemma_total_push(phis: Seq<u64>, i: int)
    requires
        0 <= i < phis.len(),
    ensures
        total(phis.take(i + 1)) == total(phis.take(i)) + phis[i],
{
    assert(phis.take(i + 1).drop_last() =~= phis.take(i));
}

proof fn lemma_total_repeat(n: nat, t: u64)
    ensures
        total(Seq::new(n, |j: int| t)) == n * t,
    decreases n,
{
    let s = Seq::new(n, |j: int| t);
    if n == 0 {
        assert(n * t == 0) by (nonlinear_arith)
            requires
                n == 0,
        ;
    } else {
        assert(s.last() == t);
        assert(s.drop_last() =~= Seq::new((n - 1) as nat, |j: int| t));
        lemma_total_repeat((n - 1) as nat, t);
        assert((n - 1) * t + t == n * t) by (nonlinear_arith);
    }
}

/// `-x` reduced into `0..steps`, for `x` already within one turn.
fn negated(x: u64, steps: u64) -> (r: u64)
    requires
        x < steps,
    ensures
        r == wrap(-(x as int), steps),
{
    proof {
        lemma_neg_mod(x as int, steps as int);
        lemma_small_mod(x as nat, steps as nat);
    }
    if x == 0 {
        0
    } else {
        steps - x
    }
}

/// The rotation by `t`: a sum of one unit rotation.
pub fn rotate(steps: u64, t: u64) -> (r: PhaseSum)
    requires
        steps >= 1,
    ensures
        r.steps == steps,
        r.angles@ == rotate_spec(steps, t as int),
        r.wf(),
{
    let mut angles: Vec<u64> = Vec::new();
    angles.push(t % steps);
    assert(angles@ =~= rotate_spec(steps, t as int));
    PhaseSum { steps, angles }
}

/// The rotations by each of `phis`, plus the rotation by minus their total,
/// which closes the curve.
pub fn sum_phases(steps: u64, phis: &Vec<u64>) -> (r: PhaseSum)
    requires
        steps >= 1,
    ensures
        r.steps == steps,
        r.angles@ == sum_phases_spec(steps, phis@),
        r.wf(),
{
    let ghost m = steps as int;
    let mut angles: Vec<u64> = Vec::new();
    let mut acc: u64 = 0;
    let mut i: usize = 0;
    proof {
        assert(phis@.take(0).len() == 0);
        lemma_small_mod(0, steps as nat);
    }
    while i < phis.len()
        invariant
            steps >= 1,
            m == steps as int,
            i <= phis.len(),
            acc as int == total(phis@.take(i as int)) % m,
            angles@ == phis@.take(i as int).map_values(|p: u64| wrap(p as int, steps)),
        decreases phis.len() - i,
    {
        let p = phis[i] % steps;
        angles.push(p);
        proof {
            lemma_total_push(phis@, i as int);
            lemma_add_mod_noop(total(phis@.take(i as int)), phis@[i as int] as int, m);
            lemma_small_mod(p as nat, steps as nat);
            assert(phis@.take(i + 1).map_values(|p: u64| wrap(p as int, steps))
                =~= phis@.take(i as int).map_values(|p: u64| wrap(p as int, steps)).push(p));
        }
        acc = ((acc as u128 + p as u128) % (steps as u128)) as u64;
        i += 1;
    }
    let closing = negated(acc, steps);
    proof {
        assert(phis@.take(phis.len() as int) =~= phis@);
        lemma_sub_mod_noop_right(0, total(phis@), m);
    }
    angles.push(closing);
    PhaseSum { steps, angles }
}

/// The homogeneous point of order `n` at parameter `t`: `sum_phases` with
/// all `n` phases equal to `t`.
pub fn curve_point(steps: u64, n: usize, t: u64) -> (r: PhaseSum)
    requires
        steps >= 1,
    ensures
        r.steps == steps,
        r.angles@ == curve_point_spec(steps, n as nat, t as int),
        r.wf(),
{
    let mut phis: Vec<u64> = Vec::new();
    let mut i: usize = 0;
    while i < n
        invariant
            i <= n,
            phis@ =~= Seq::new(i as nat, |j: int| t),
        decreases n - i,
    {
        phis.push(t);
        i += 1;
    }
    let r = sum_phases(steps, &phis);
    proof {
        lemma_curve_point_is_sum_phases(steps, n as nat, t);
    }
    r
}

/// One rolling step: `point` turned by `phi`, plus the rotation by `-k·phi`.
pub fn roll_transform(phi: u64, k: usize, point: &PhaseSum) -> (r: PhaseSum)
    requires
        point.wf(),
    ensures
        r.steps == point.steps,
        r.angles@ == roll_spec(point.steps, phi as int, k as int, point.angles@),
        r.wf(),
{
    let steps = point.steps;
    let ghost m = steps as int;
    let p = phi % steps;
    let mut angles: Vec<u64> = Vec::new();
    let mut i: usize = 0;
    while i < point.angles.len()
        invariant
            point.wf(),
            steps == point.steps,
            m == steps as int,
            p as int == phi as int % m,
            i <= point.angles.len(),
            angles@ == point.angles@.take(i as int).map_values(
                |a: u64| wrap(a + phi as int, steps),
            ),
        decreases point.angles.len() - i,
    {
        let a = point.angles[i];
        let b = ((a as u128 + p as u128) % (steps as u128)) as u64;
        proof {
            lemma_add_mod_noop_right(a as int, phi as int, m);
            assert(point.angles@.take(i + 1).map_values(|a: u64| wrap(a + phi as int, steps))
                =~= point.angles@.take(i as int).map_values(
                |a: u64| wrap(a + phi as int, steps),
            ).push(b));
        }
        angles.push(b);
        i += 1;
    }
    let kr = k as u128 % steps as u128;
    assert(kr * (p as u128) <= u64::MAX as int * u64::MAX as int) by (nonlinear_arith)
        requires
            kr <= u64::MAX,
            p <= u64::MAX,
    ;
    let kp = ((kr * (p as u128)) % (steps as u128)) as u64;
    let closing = negated(kp, steps);
    proof {
        assert(point.angles@.take(point.angles.len() as int) =~= point.angles@);
        lemma_mul_mod_noop(k as int, phi as int, m);
        lemma_sub_mod_noop_right(0, k * phi, m);
    }
    angles.push(closing);
    PhaseSum { steps, angles }
}

/// The homogeneous point of order `n` at `t` is `sum_phases` of `n` copies of `t`.
pub proof fn lemma_curve_point_is_sum_phases(steps: u64, n: nat, t: u64)
    requires
        steps >= 1,
    ensures
        curve_point_spec(steps, n, t as int) == sum_phases_spec(steps, Seq::new(n, |j: int| t)),
{
    lemma_total_repeat(n, t);
    assert(curve_point_spec(steps, n, t as int) =~= sum_phases_spec(
        steps,
        Seq::new(n, |j: int| t),
    ));
}

/// A point of order `n` is a sum of exactly `n + 1` unit rotations, each
/// within one turn.
pub proof fn lemma_curve_point_terms(steps: u64, n: nat, t: int)
    requires
        steps >= 1,
    ensures
        curve_point_spec(steps, n, t).len() == n + 1,
        forall|j: int|
            0 <= j < n + 1 ==> #[trigger] curve_point_spec(steps, n, t)[j] < steps,
{
    lemma_mod_bound(t, steps as int);
    lemma_mod_bound(-(n * t), steps as int);
}

/// At parameter zero every term of a point of order `n` has angle zero, so
/// the point is `(n + 1) + 0i`.
pub proof fn lemma_curve_point_at_zero(steps: u64, n: nat)
    requires
        steps >= 1,
    ensures
        curve_point_spec(steps, n, 0) == Seq::new(n + 1, |j: int| 0u64),
{
    lemma_small_mod(0, steps as nat);
    assert(n * 0 == 0);
    assert(curve_point_spec(steps, n, 0) =~= Seq::new(n + 1, |j: int| 0u64));
}

/// Moving the parameter by one full turn gives the same point.
pub proof fn lemma_curve_point_periodic(steps: u64, n: nat, t: int)
    requires
        steps >= 1,
    ensures
        curve_point_spec(steps, n, t + steps) == curve_point_spec(steps, n, t),
{
    let m = steps as int;
    lemma_mod_add_multiples_vanish(t, m);
    assert(-(n * (t + m)) == -(n * t) + (-(n as int)) * m) by (nonlinear_arith);
    vstd::arithmetic::div_mod::lemma_mod_multiples_vanish(-(n as int), -(n * t), m);
    assert(curve_point_spec(steps, n, t + steps) =~= curve_point_spec(steps, n, t));
}

/// A roll by zero keeps every term and still adds the unit rotation `1`.
pub proof fn lemma_roll_by_zero(steps: u64, k: int, point: Seq<u64>)
    requires
        steps >= 1,
        forall|i: int| 0 <= i < point.len() ==> #[trigger] point[i] < steps,
    ensures
        roll_spec(steps, 0, k, point) == point.push(0u64),
{
    lemma_small_mod(0, steps as nat);
    assert forall|i: int| 0 <= i < point.len() implies #[trigger] wrap(point[i] + 0, steps)
        == point[i] by {
        lemma_small_mod(point[i] as nat, steps as nat);
    }
    assert(k * 0 == 0);
    assert(roll_spec(steps, 0, k, point) =~= point.push(0u64));
}

} // verus!
