//! Walking a curve, a cascade layer or the dashed guide circle over one
//! full turn, at uniformly spaced steps.
use crate::curve::{curve_point, curve_point_spec, roll_spec, roll_transform, PhaseSum};
use vstd::prelude::*;

verus! {

/// A layer of a cascade at sample `t`: the point of order `n`, rolled once for
/// each index `k` from `n` below `upto`, by `params[k]` with order `k + 1`.
pub open spec fn cascade_spec(steps: u64, params: Seq<u64>, n: nat, t: int, upto: nat) -> Seq<
    u64,
>
    decreases upto,
{
    if upto <= n {
        curve_point_spec(steps, n, t)
    } else {
        roll_spec(
            steps,
            params[upto - 1] as int,
            upto as int,
            cascade_spec(steps, params, n, t, (upto - 1) as nat),
        )
    }
}

/// Whether step `j` of the guide circle is drawn: the first half of every period.
pub open spec fn dashed(j: int, period: int) -> bool {
    j % period < period / 2
}

/// The points of order `n` at each of `point_count` steps of one turn; the
/// point at index `j` is taken at parameter `j` steps, with `point_count`
/// steps to the turn.
pub fn sample_curve(n: usize, point_count: usize) -> (r: Vec<PhaseSum>)
    ensures
        r.len() == point_count,
        forall|j: int|
            0 <= j < point_count ==> {
                &&& (#[trigger] r[j]).steps == point_count
                &&& r[j].angles@ == curve_point_spec(point_count as u64, n as nat, j)
            },
{
    let steps = point_count as u64;
    let mut r: Vec<PhaseSum> = Vec::new();
    let mut j: usize = 0;
    while j < point_count
        invariant
            steps == point_count,
            j <= point_count,
            r.len() == j,
            forall|i: int|
                0 <= i < j ==> {
                    &&& (#[trigger] r[i]).steps == point_count
                    &&& r[i].angles@ == curve_point_spec(steps, n as nat, i)
                },
        decreases point_count - j,
    {
        r.push(curve_point(steps, n, j as u64));
        j += 1;
    }
    r
}

/// One layer of a cascade: at each of `point_count` steps, the point of
/// order `n`, rolled by `params[k]` with order `k + 1` for every `k` from `n`
/// up to the end of `params`.
pub fn sample_cascade_layer(params: &Vec<u64>, n: usize, point_count: usize) -> (r: Vec<PhaseSum>)
    ensures
        r.len() == point_count,
        forall|j: int|
            0 <= j < point_count ==> {
                &&& (#[trigger] r[j]).steps == point_count
                &&& r[j].angles@ == cascade_spec(
                    point_count as u64,
                    params@,
                    n as nat,
                    j,
                    params.len() as nat,
                )
            },
{
    let steps = point_count as u64;
    let mut r: Vec<PhaseSum> = Vec::new();
    let mut j: usize = 0;
    while j < point_count
        invariant
            steps == point_count,
            j <= point_count,
            r.len() == j,
            forall|i: int|
                0 <= i < j ==> {
                    &&& (#[trigger] r[i]).steps == point_count
                    &&& r[i].angles@ == cascade_spec(
                        steps,
                        params@,
                        n as nat,
                        i,
                        params.len() as nat,
                    )
                },
        decreases point_count - j,
    {
        let mut pt = curve_point(steps, n, j as u64);
        let mut k: usize = n;
        while k < params.len()
            invariant
                steps == point_count,
                j < point_count,
                n <= k,
                k <= params.len() || k == n,
                pt.wf(),
                pt.steps == steps,
                pt.angles@ == cascade_spec(steps, params@, n as nat, j as int, k as nat),
            decreases params.len() - k,
        {
            pt = roll_transform(params[k], k + 1, &pt);
            k += 1;
        }
        proof {
            if params.len() <= n {
                assert(cascade_spec(steps, params@, n as nat, j as int, params.len() as nat)
                    == curve_point_spec(steps, n as nat, j as int));
            }
        }
        r.push(pt);
        j += 1;
    }
    r
}

/// The steps, in increasing order, at which a dashed circle of `point_count`
/// steps is drawn: those whose index modulo `dash_period` lies in the first
/// half of the period.
pub fn sample_dashed_circle(point_count: usize, dash_period: usize) -> (r: Vec<usize>)
    requires
        dash_period >= 1,
    ensures
        forall|i: int, j: int| 0 <= i < j < r.len() ==> r[i] < r[j],
        forall|i: int|
            0 <= i < r.len() ==> #[trigger] r[i] < point_count && dashed(
                r[i] as int,
                dash_period as int,
            ),
        forall|j: usize|
            j < point_count && dashed(j as int, dash_period as int) ==> #[trigger] r@.contains(j),
{
    let mut r: Vec<usize> = Vec::new();
    let mut j: usize = 0;
    while j < point_count
        invariant
            dash_period >= 1,
            j <= point_count,
            forall|a: int, b: int| 0 <= a < b < r.len() ==> r[a] < r[b],
            forall|a: int|
                0 <= a < r.len() ==> #[trigger] r[a] < j && dashed(
                    r[a] as int,
                    dash_period as int,
                ),
            forall|i: usize| i < j && dashed(i as int, dash_period as int) ==> #[trigger] r@.contains(i),
        decreases point_count - j,
    {
        if j % dash_period < dash_period / 2 {
            let ghost old_r = r@;
            r.push(j);
            proof {
                assert(r@[r.len() - 1] == j);
                assert forall|i: usize|
                    i < j + 1 && dashed(i as int, dash_period as int) implies #[trigger] r@.contains(
                    i,
                ) by {
                    if i < j {
                        assert(old_r.contains(i));
                        let w = choose|w: int| 0 <= w < old_r.len() && old_r[w] == i;
                        assert(r@[w] == i);
                    }
                }
            }
        }
        j += 1;
    }
    r
}

} // verus!
