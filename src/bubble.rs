//! Bubbles: rise from the bottom row at a steady speed, wobble sideways now
//! and then, and are removed once they reach the surface.
use crate::chance::{sample_range, sample_ratio};
use crate::motion::{axis_end, axis_end_of, coord_ok, COORD_LIMIT, SPEED_LIMIT, UNIT};
use rand::rngs::StdRng;
use vstd::prelude::*;

verus! {

/// The height, in hundredths of a cell, at or above which a bubble is gone.
pub const SURFACE: i64 = 100;

/// The bound on a bubble's sideways wobble in one tick: a wobble lies in
/// `-WOBBLE..WOBBLE`.
pub const WOBBLE: i64 = 50;

/// A bubble. Coordinates and speed are in hundredths of a cell.
#[derive(Clone, Copy, Debug, PartialEq, Eq, Structural)]
pub struct Bubble {
    pub x: i64,
    pub y: i64,
    /// How far the bubble rises each tick; positive.
    pub speed: i64,
}

/// `v` held to `lo..=hi`: `lo` below it, else `hi` above it.
pub open spec fn hold(v: int, lo: int, hi: int) -> int {
    if v < lo {
        lo
    } else if v > hi {
        hi
    } else {
        v
    }
}

impl Bubble {
    /// The bubble's fields are in their ranges.
    pub open spec fn wf(self) -> bool {
        &&& coord_ok(self.x as int)
        &&& coord_ok(self.y as int)
        &&& 1 <= self.speed <= SPEED_LIMIT
    }

    /// The bubble can rise one more tick without leaving the range of
    /// coordinates.
    pub open spec fn can_rise(self) -> bool {
        coord_ok(self.y - self.speed)
    }

    /// The bubble has not reached the surface.
    pub open spec fn alive(self) -> bool {
        self.y > SURFACE
    }

    /// The right end of a bubble's horizontal range in a viewport `w` wide.
    pub open spec fn x_end(w: int) -> int {
        axis_end(w, 1)
    }

    /// Whether the bubble lies across in the range that a viewport `w` wide
    /// allows it.
    pub open spec fn in_view(self, w: int) -> bool {
        UNIT <= self.x <= Bubble::x_end(w)
    }

    /// The bubble one tick later in a viewport `w` wide: risen by its speed and
    /// moved `jitter` sideways, held to its horizontal range.
    pub open spec fn advanced(self, w: int, jitter: int) -> Bubble {
        Bubble {
            x: hold(self.x + jitter, UNIT as int, Bubble::x_end(w)) as i64,
            y: (self.y - self.speed) as i64,
            ..self
        }
    }

    /// The bubble is `before` one tick later in a viewport `w` wide, with some
    /// wobble.
    pub open spec fn one_tick_after(self, before: Bubble, w: int) -> bool {
        exists|j: int| -WOBBLE <= j < WOBBLE && self == #[trigger] before.advanced(w, j)
    }

    /// The bubble after `k` ticks without wobble in a viewport `w` wide.
    pub open spec fn risen(self, w: int, k: nat) -> Bubble
        decreases k,
    {
        if k == 0 {
            self
        } else {
            self.risen(w, (k - 1) as nat).advanced(w, 0)
        }
    }

    /// How many ticks without wobble take a living bubble to the surface.
    pub open spec fn ticks_to_surface(self) -> int {
        (self.y - SURFACE + self.speed - 1) / self.speed as int
    }

    /// Whether a bubble can be placed at random across a viewport `w` wide:
    /// the range it is drawn from is not empty.
    pub open spec fn spawnable(w: int) -> bool {
        w > 2
    }

    /// What a bubble made for a `w` by `h` viewport may look like: on the
    /// bottom row, anywhere across.
    pub open spec fn fresh(self, w: int, h: int) -> bool {
        &&& UNIT <= self.x < Bubble::x_end(w)
        &&& self.y == axis_end(h, 1)
        &&& 10 <= self.speed < 40
    }

    /// A bubble on the bottom row of a `w` by `h` viewport, at a random column
    /// and with a random speed.
    pub fn new(w: u16, h: u16, rng: &mut StdRng) -> (r: Bubble)
        requires
            Bubble::spawnable(w as int),
        ensures
            r.fresh(w as int, h as int),
            r.wf(),
    {
        let x = sample_range(rng, UNIT, axis_end_of(w, 1));
        let y = axis_end_of(h, 1);
        let speed = sample_range(rng, 10, 40);
        Bubble { x, y, speed }
    }

    /// Moves the bubble one tick in a viewport `w` wide, `jitter` sideways.
    pub fn advance(&mut self, w: u16, jitter: i64)
        requires
            old(self).wf(),
            old(self).can_rise(),
            -WOBBLE <= jitter < WOBBLE,
        ensures
            *final(self) == old(self).advanced(w as int, jitter as int),
            final(self).wf(),
            final(self).y < old(self).y,
            w >= 2 ==> final(self).in_view(w as int),
    {
        let x_end = axis_end_of(w, 1);
        let x = self.x + jitter;
        self.x = if x < UNIT {
            UNIT
        } else if x > x_end {
            x_end
        } else {
            x
        };
        self.y = self.y - self.speed;
    }

    /// Moves the bubble one tick in a viewport `w` wide; with chance 3 in 10 it
    /// also wobbles sideways by less than half a cell.
    pub fn update(&mut self, w: u16, rng: &mut StdRng)
        requires
            old(self).wf(),
            old(self).can_rise(),
        ensures
            final(self).one_tick_after(*old(self), w as int),
            final(self).wf(),
            final(self).y < old(self).y,
            w >= 2 ==> final(self).in_view(w as int),
    {
        let jitter = if sample_ratio(rng, 3, 10) {
            sample_range(rng, -WOBBLE, WOBBLE)
        } else {
            0
        };
        self.advance(w, jitter);
    }

    /// Without wobble a bubble rises by its speed each tick, for as long as its
    /// height stays in the range of coordinates.
    pub proof fn lemma_risen_height(self, w: int, k: nat)
        requires
            self.wf(),
            coord_ok(self.y - k * self.speed),
        ensures
            self.risen(w, k).y == self.y - k * self.speed,
            self.risen(w, k).speed == self.speed,
        decreases k,
    {
        if k > 0 {
            let k1 = (k - 1) as nat;
            assert(coord_ok(self.y - k1 * self.speed)) by (nonlinear_arith)
                requires
                    coord_ok(self.y - k * self.speed),
                    coord_ok(self.y as int),
                    k1 == k - 1,
                    k >= 1,
                    self.speed >= 1,
            ;
            self.lemma_risen_height(w, k1);
            assert(self.y - k1 * self.speed - self.speed == self.y - k * self.speed) by (nonlinear_arith)
                requires
                    k1 == k - 1,
            ;
            let prev = self.risen(w, k1);
            assert(self.risen(w, k) == prev.advanced(w, 0));
        } else {
            assert(k * self.speed == 0) by (nonlinear_arith)
                requires
                    k == 0,
            ;
        }
    }

    /// Without wobble, a bubble that has not reached the surface lives through
    /// exactly `ticks_to_surface` ticks, the ceiling of its height above the
    /// surface over its speed; then it is at the surface and is removed. For a
    /// bubble made on the bottom row of a viewport `h` high, that is the
    /// ceiling of `(h - 2)` cells over its speed.
    pub proof fn lemma_surfaces_on_time(self, w: int)
        requires
            self.wf(),
            self.alive(),
        ensures
            forall|k: nat| k < self.ticks_to_surface() ==> #[trigger] self.risen(w, k).alive(),
            !self.risen(w, self.ticks_to_surface() as nat).alive(),
    {
        let n = self.ticks_to_surface();
        let d = self.y - SURFACE;
        let s = self.speed as int;
        assert(n >= 1 && n * s >= d && (n - 1) * s < d) by (nonlinear_arith)
            requires
                n == (d + s - 1) / s,
                d > 0,
                s >= 1,
        ;
        assert(n * s < d + s) by (nonlinear_arith)
            requires
                (n - 1) * s < d,
        ;
        assert forall|k: nat| k < n implies #[trigger] self.risen(w, k).alive() by {
            assert(0 <= k * s <= (n - 1) * s) by (nonlinear_arith)
                requires
                    k < n,
                    s >= 1,
            ;
            self.lemma_risen_height(w, k);
        }
        self.lemma_risen_height(w, n as nat);
    }
}

} // verus!
