//! What one frame draws: the guide circle's radius and the curve layers,
//! each with its shade and its points.
use crate::curve::{curve_point_spec, PhaseSum};
use crate::sampler::{cascade_spec, sample_cascade_layer};
use vstd::prelude::*;

verus! {

/// How many steps a curve or the guide circle is sampled at over one turn.
pub const POINT_COUNT: usize = 10000;

/// The guide circle's dash period, in steps; the first half of each period is drawn.
pub const DASH_PERIOD: usize = 200;

/// The colour a layer is drawn in.
#[derive(Clone, Copy, Debug, PartialEq, Eq, Structural)]
pub enum Shade {
    /// The accent colour of the single curve.
    Accent,
    /// The gray of lightness `layer / (order + 1)`.
    Gray { layer: usize, order: usize },
}

/// One curve drawn in a frame: the cascade layer whose base has order
/// `order`, in shade `shade`.
#[derive(Clone, Copy, Debug, PartialEq, Eq, Structural)]
pub struct Layer {
    pub order: usize,
    pub shade: Shade,
}

/// The parameters of every cascade layer: `order` copies of the time angle.
pub open spec fn cascade_params(order: nat, time_steps: u64) -> Seq<u64> {
    Seq::new(order, |k: int| time_steps)
}

/// The radius of the guide circle, in thousandths: `(order + 1)` times the scale.
pub fn guide_radius_milli(order: usize, scale_milli: u64) -> (r: u128)
    ensures
        r == (order + 1) * scale_milli,
{
    assert((order + 1) * scale_milli <= (usize::MAX + 1) * u64::MAX) by (nonlinear_arith)
        requires
            order <= usize::MAX,
            scale_milli <= u64::MAX,
    ;
    (order as u128 + 1) * scale_milli as u128
}

/// The layers of a frame at order `order`: the single curve in the accent
/// colour; or, in cascade mode, one layer for each base order from one up to
/// `order`, shaded lighter as the base order grows.
pub fn frame_layers(order: usize, cascade: bool) -> (r: Vec<Layer>)
    requires
        order >= 1,
    ensures
        !cascade ==> r@ == seq![Layer { order, shade: Shade::Accent }],
        cascade ==> r.len() == order,
        cascade ==> forall|i: int|
            0 <= i < order ==> #[trigger] r[i] == (Layer {
                order: (i + 1) as usize,
                shade: Shade::Gray { layer: (i + 1) as usize, order },
            }),
{
    let mut r: Vec<Layer> = Vec::new();
    if !cascade {
        r.push(Layer { order, shade: Shade::Accent });
        assert(r@ =~= seq![Layer { order, shade: Shade::Accent }]);
        return r;
    }
    let mut i: usize = 0;
    while i < order
        invariant
            i <= order,
            r.len() == i,
            forall|a: int|
                0 <= a < i ==> #[trigger] r[a] == (Layer {
                    order: (a + 1) as usize,
                    shade: Shade::Gray { layer: (a + 1) as usize, order },
                }),
        decreases order - i,
    {
        r.push(Layer { order: i + 1, shade: Shade::Gray { layer: i + 1, order } });
        i += 1;
    }
    r
}

/// The points of a layer with base order `layer_order` in a frame at order
/// `order`, with the cascade's roll angle `time_steps`, at each of
/// `point_count` steps of one turn.
pub fn layer_points(layer_order: usize, order: usize, time_steps: u64, point_count: usize) -> (r:
    Vec<PhaseSum>)
    ensures
        r.len() == point_count,
        forall|j: int|
            0 <= j < point_count ==> {
                &&& (#[trigger] r[j]).steps == point_count
                &&& r[j].angles@ == cascade_spec(
                    point_count as u64,
                    cascade_params(order as nat, time_steps),
                    layer_order as nat,
                    j,
                    order as nat,
                )
            },
{
    let mut params: Vec<u64> = Vec::new();
    let mut k: usize = 0;
    while k < order
        invariant
            k <= order,
            params@ =~= cascade_params(k as nat, time_steps),
        decreases order - k,
    {
        params.push(time_steps);
        k += 1;
    }
    sample_cascade_layer(&params, layer_order, point_count)
}

/// The top layer of a cascade, whose base order is the frame's order, is the
/// homogeneous curve of that order: it is rolled by nothing.
pub proof fn lemma_top_layer_is_curve(steps: u64, order: nat, time_steps: u64, t: int)
    ensures
        cascade_spec(steps, cascade_params(order, time_steps), order, t, order)
            == curve_point_spec(steps, order, t),
{
}

} // verus!
