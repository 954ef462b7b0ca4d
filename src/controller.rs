//! The interactive session: a time accumulator, the curve order and the
//! zoom scale, moved by ticks, key presses and drags.
//!
//! Time is counted in microseconds and the scale in thousandths of a unit,
//! so every transition is exact.
use vstd::prelude::*;

verus! {

/// How much session time passes per microsecond of real time.
pub const TICK_SPEED: u64 = 1;

/// The scale a session starts with, in thousandths.
pub const INIT_SCALE_MILLI: u64 = 50000;

/// The smallest scale, in thousandths: one unit.
pub const MIN_SCALE_MILLI: u64 = 1000;

/// A key press as the controller sees it.
#[derive(Clone, Copy, Debug, PartialEq, Eq, Structural)]
pub enum Key {
    ArrowLeft,
    ArrowRight,
    Other,
}

/// The pointer button that a drag is made with.
#[derive(Clone, Copy, Debug, PartialEq, Eq, Structural)]
pub enum Button {
    Left,
    Right,
    Center,
}

/// How a session starts and how its frames are drawn.
#[derive(Clone, Copy, Debug, PartialEq, Eq, Structural)]
pub struct Config {
    pub initial_order: usize,
    pub initial_scale_milli: u64,
    /// Draw the layered cascade instead of the single curve.
    pub cascade: bool,
}

/// The state that lives across frames.
#[derive(Clone, Copy, Debug, PartialEq, Eq, Structural)]
pub struct Session {
    /// Accumulated time, in microseconds.
    pub time_us: u64,
    /// The curve order, at least one.
    pub order: usize,
    /// The zoom scale, in thousandths, at least one unit.
    pub scale_milli: u64,
}

/// The time after a tick of `delta` microseconds, held at the largest value.
pub open spec fn ticked(time: int, delta: int) -> int {
    if time + delta * TICK_SPEED > u64::MAX {
        u64::MAX as int
    } else {
        time + delta * TICK_SPEED
    }
}

/// The order after one increment, held at the largest value.
pub open spec fn raised(order: int) -> int {
    if order < usize::MAX {
        order + 1
    } else {
        order
    }
}

/// The order after one decrement, never below one.
pub open spec fn lowered(order: int) -> int {
    if order > 1 {
        order - 1
    } else {
        order
    }
}

/// The scale after a zoom drag by `dy`, clamped below at one unit and held
/// at the largest value.
pub open spec fn zoomed(scale: int, dy: int) -> int {
    if scale + dy < MIN_SCALE_MILLI {
        MIN_SCALE_MILLI as int
    } else if scale + dy > u64::MAX {
        u64::MAX as int
    } else {
        scale + dy
    }
}

impl Config {
    /// Order one, scale fifty, a single curve.
    pub fn standard() -> (r: Config)
        ensures
            r.initial_order == 1,
            r.initial_scale_milli == INIT_SCALE_MILLI,
            !r.cascade,
    {
        Config { initial_order: 1, initial_scale_milli: INIT_SCALE_MILLI, cascade: false }
    }
}

impl Session {
    pub open spec fn wf(&self) -> bool {
        self.order >= 1 && self.scale_milli >= MIN_SCALE_MILLI
    }

    /// A session at time zero; the order is at least one and the scale at
    /// least one unit.
    pub fn new(config: &Config) -> (r: Session)
        ensures
            r.wf(),
            r.time_us == 0,
            r.order == if config.initial_order >= 1 { config.initial_order } else { 1 },
            r.scale_milli == if config.initial_scale_milli >= MIN_SCALE_MILLI {
                config.initial_scale_milli
            } else {
                MIN_SCALE_MILLI
            },
    {
        let order = if config.initial_order >= 1 { config.initial_order } else { 1 };
        let scale_milli = if config.initial_scale_milli >= MIN_SCALE_MILLI {
            config.initial_scale_milli
        } else {
            MIN_SCALE_MILLI
        };
        Session { time_us: 0, order, scale_milli }
    }

    /// Advances time by `delta_us` microseconds times the tick speed.
    pub fn tick(&mut self, delta_us: u64)
        ensures
            final(self).time_us == ticked(old(self).time_us as int, delta_us as int),
            final(self).order == old(self).order,
            final(self).scale_milli == old(self).scale_milli,
    {
        let speed = TICK_SPEED;
        assert(delta_us * speed <= u64::MAX as int * u64::MAX as int) by (nonlinear_arith)
            requires
                delta_us <= u64::MAX,
                speed <= u64::MAX,
        ;
        let step = delta_us as u128 * speed as u128;
        let t = self.time_us as u128 + step;
        self.time_us = if t > u64::MAX as u128 {
            u64::MAX
        } else {
            t as u64
        };
    }

    /// Raises the order by one.
    pub fn increment_order(&mut self)
        ensures
            final(self).order == raised(old(self).order as int),
            final(self).time_us == old(self).time_us,
            final(self).scale_milli == old(self).scale_milli,
    {
        if self.order < usize::MAX {
            self.order = self.order + 1;
        }
    }

    /// Lowers the order by one, unless it is one already.
    pub fn decrement_order(&mut self)
        ensures
            final(self).order == lowered(old(self).order as int),
            final(self).time_us == old(self).time_us,
            final(self).scale_milli == old(self).scale_milli,
    {
        if self.order > 1 {
            self.order = self.order - 1;
        }
    }

    /// The left arrow lowers the order, the right arrow raises it; other
    /// keys change nothing.
    pub fn on_key(&mut self, key: Key)
        ensures
            final(self).order == match key {
                Key::ArrowLeft => lowered(old(self).order as int),
                Key::ArrowRight => raised(old(self).order as int),
                Key::Other => old(self).order as int,
            },
            final(self).time_us == old(self).time_us,
            final(self).scale_milli == old(self).scale_milli,
    {
        match key {
            Key::ArrowLeft => self.decrement_order(),
            Key::ArrowRight => self.increment_order(),
            Key::Other => {},
        }
    }

    /// A drag with the right button moves the scale by the drag's vertical
    /// offset `dy_milli`, in thousandths, and keeps it at least one unit;
    /// drags with other buttons, or with none, change nothing.
    pub fn on_drag(&mut self, dy_milli: i64, button: Option<Button>)
        ensures
            final(self).scale_milli == if button == Some(Button::Right) {
                zoomed(old(self).scale_milli as int, dy_milli as int)
            } else {
                old(self).scale_milli as int
            },
            final(self).time_us == old(self).time_us,
            final(self).order == old(self).order,
    {
        match button {
            Some(Button::Right) => {
                let s = self.scale_milli as i128 + dy_milli as i128;
                self.scale_milli = if s < MIN_SCALE_MILLI as i128 {
                    MIN_SCALE_MILLI
                } else if s > u64::MAX as i128 {
                    u64::MAX
                } else {
                    s as u64
                };
            },
            _ => {},
        }
    }
}

/// Every transition keeps the order at least one and the scale at least one unit.
pub proof fn lemma_transitions_keep_wf(s: Session, delta: int, dy: int)
    requires
        s.wf(),
        delta >= 0,
    ensures
        lowered(s.order as int) >= 1,
        raised(s.order as int) >= 1,
        zoomed(s.scale_milli as int, dy) >= MIN_SCALE_MILLI,
        ticked(s.time_us as int, delta) >= s.time_us,
{
}

/// Lowering an order of one leaves it at one.
pub proof fn lemma_lower_floor()
    ensures
        lowered(1) == 1,
{
}

/// Raising the order and then lowering it gives the order back.
pub proof fn lemma_raise_then_lower(order: int)
    requires
        1 <= order < usize::MAX,
    ensures
        lowered(raised(order)) == order,
{
}

/// Two ticks advance time as one tick by the sum of their deltas.
pub proof fn lemma_ticks_add(time: int, a: int, b: int)
    requires
        0 <= time <= u64::MAX,
        a >= 0,
        b >= 0,
    ensures
        ticked(ticked(time, a), b) == ticked(time, a + b),
{
    assert((a + b) * TICK_SPEED == a * TICK_SPEED + b * TICK_SPEED);
}

} // verus!
