use hycy::controller::{Button, Config, Key, Session, INIT_SCALE_MILLI, MIN_SCALE_MILLI};
use hycy::frame::{frame_layers, guide_radius_milli, layer_points, Layer, Shade};
use hycy::sampler::sample_curve;

fn fresh() -> Session {
    Session::new(&Config::standard())
}

#[test]
fn new_session_defaults() {
    let s = fresh();
    assert_eq!(s, Session { time_us: 0, order: 1, scale_milli: INIT_SCALE_MILLI });
}

#[test]
fn new_session_floors_order_and_scale() {
    let s = Session::new(&Config { initial_order: 0, initial_scale_milli: 10, cascade: true });
    assert_eq!(s.order, 1);
    assert_eq!(s.scale_milli, MIN_SCALE_MILLI);
}

#[test]
fn decrement_at_one_is_noop() {
    let mut s = fresh();
    s.decrement_order();
    assert_eq!(s.order, 1);
    s.on_key(Key::ArrowLeft);
    assert_eq!(s.order, 1);
}

#[test]
fn increment_then_decrement_restores() {
    let mut s = fresh();
    for _ in 0..4 {
        s.on_key(Key::ArrowRight);
    }
    assert_eq!(s.order, 5);
    s.increment_order();
    s.decrement_order();
    assert_eq!(s.order, 5);
    s.on_key(Key::Other);
    assert_eq!(s.order, 5);
}

#[test]
fn increment_holds_at_largest_order() {
    let mut s = Session { time_us: 0, order: usize::MAX, scale_milli: 1000 };
    s.increment_order();
    assert_eq!(s.order, usize::MAX);
}

#[test]
fn right_drag_clamps_scale() {
    let mut s = fresh();
    assert_eq!(s.scale_milli, 50000);
    s.on_drag(-100000, Some(Button::Right));
    assert_eq!(s.scale_milli, 1000);
}

#[test]
fn right_drag_moves_scale() {
    let mut s = fresh();
    s.on_drag(2500, Some(Button::Right));
    assert_eq!(s.scale_milli, 52500);
    s.on_drag(-2500, Some(Button::Right));
    assert_eq!(s.scale_milli, 50000);
}

#[test]
fn other_drags_are_ignored() {
    let mut s = fresh();
    s.on_drag(-100000, Some(Button::Left));
    s.on_drag(-100000, Some(Button::Center));
    s.on_drag(-100000, None);
    assert_eq!(s.scale_milli, 50000);
}

#[test]
fn ticks_add_up() {
    let mut a = fresh();
    for d in [500000u64, 500000, 1000000] {
        a.tick(d);
    }
    assert_eq!(a.time_us, 2000000);
    let mut b = fresh();
    b.tick(2000000);
    assert_eq!(a, b);
    let mut c = fresh();
    c.tick(1000000);
    c.tick(1000000);
    assert_eq!(a, c);
}

#[test]
fn tick_holds_at_largest_time() {
    let mut s = fresh();
    s.tick(u64::MAX - 5);
    s.tick(10);
    assert_eq!(s.time_us, u64::MAX);
}

#[test]
fn guide_radius_exact() {
    assert_eq!(guide_radius_milli(2, 50000), 150000);
    assert_eq!(guide_radius_milli(usize::MAX, u64::MAX), (usize::MAX as u128 + 1) * u64::MAX as u128);
}

#[test]
fn single_curve_layer() {
    assert_eq!(frame_layers(3, false), vec![Layer { order: 3, shade: Shade::Accent }]);
}

#[test]
fn cascade_layers_lighten() {
    assert_eq!(
        frame_layers(3, true),
        vec![
            Layer { order: 1, shade: Shade::Gray { layer: 1, order: 3 } },
            Layer { order: 2, shade: Shade::Gray { layer: 2, order: 3 } },
            Layer { order: 3, shade: Shade::Gray { layer: 3, order: 3 } },
        ]
    );
}

#[test]
fn top_layer_is_the_curve() {
    let top = layer_points(3, 3, 7, 20);
    let curve = sample_curve(3, 20);
    for j in 0..20 {
        assert_eq!(top[j].angles, curve[j].angles);
    }
}

#[test]
fn lower_layer_is_rolled() {
    let r = layer_points(1, 3, 1, 4);
    assert_eq!(r[0].angles, vec![2, 2, 3, 1]);
}
