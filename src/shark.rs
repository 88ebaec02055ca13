//! Sharks: larger and faster than fish, kept a little further from the top
//! and the bottom.
use crate::chance::{sample_range, sample_ratio};
use crate::motion::{
    axis_end, axis_end_of, coord_ok, is_direction, lemma_reflect_in_range, reflect, reflect_axis,
    SPEED_LIMIT, UNIT,
};
use crate::sprite::{mirror, mirrored, shark_sprite, shark_sprite_chars, SHARK_WIDTH};
use rand::rngs::StdRng;
use vstd::prelude::*;

verus! {

/// Cells kept free above the sharks' range.
pub const SHARK_TOP: i64 = 2;

/// Cells kept free below the sharks' range.
pub const SHARK_BOTTOM: i64 = 3;

/// A shark. Coordinates and speeds are in hundredths of a cell.
#[derive(Clone, Copy, Debug, PartialEq, Eq, Structural)]
pub struct Shark {
    pub x: i64,
    pub y: i64,
    pub speed: i64,
    pub v_speed: i64,
    /// `1` while swimming right, `-1` while swimming left.
    pub direction: i32,
    /// `1` while sinking, `-1` while rising.
    pub v_direction: i32,
}

impl Shark {
    /// The shark's fields are in their ranges.
    pub open spec fn wf(self) -> bool {
        &&& coord_ok(self.x as int)
        &&& coord_ok(self.y as int)
        &&& 0 <= self.speed <= SPEED_LIMIT
        &&& 0 <= self.v_speed <= SPEED_LIMIT
        &&& is_direction(self.direction as int)
        &&& is_direction(self.v_direction as int)
    }

    /// The right end of the shark's horizontal range in a viewport `w` wide.
    pub open spec fn x_end(w: int) -> int {
        axis_end(w, shark_sprite().len() as int)
    }

    /// The bottom end of the shark's vertical range in a viewport `h` high.
    pub open spec fn y_end(h: int) -> int {
        axis_end(h, SHARK_BOTTOM as int)
    }

    /// The shark one tick later in a `w` by `h` viewport, where `flip` says
    /// whether chance turned its vertical direction round.
    pub open spec fn advanced(self, w: int, h: int, flip: bool) -> Shark {
        let (x, d) = reflect(
            self.x + self.speed * self.direction,
            self.direction as int,
            UNIT as int,
            Shark::x_end(w),
        );
        let (y, vd) = reflect(
            self.y + self.v_speed * self.v_direction,
            self.v_direction as int,
            SHARK_TOP * UNIT,
            Shark::y_end(h),
        );
        Shark {
            x: x as i64,
            y: y as i64,
            direction: d as i32,
            v_direction: (if flip { -vd } else { vd }) as i32,
            ..self
        }
    }

    /// Whether the shark lies in the range that a `w` by `h` viewport allows it.
    pub open spec fn in_view(self, w: int, h: int) -> bool {
        &&& UNIT <= self.x <= Shark::x_end(w)
        &&& SHARK_TOP * UNIT <= self.y <= Shark::y_end(h)
    }

    /// Whether `w` by `h` leaves a shark room to move.
    pub open spec fn room(w: int, h: int) -> bool {
        w >= 13 && h >= 5
    }

    /// Whether a shark can be placed at random in a `w` by `h` viewport: the
    /// ranges it is drawn from are not empty.
    pub open spec fn spawnable(w: int, h: int) -> bool {
        w > 16 && h > 6
    }

    /// Whether a shark can be placed at random in a `w` by `h` viewport.
    pub fn fits(w: u16, h: u16) -> (r: bool)
        ensures
            r == Shark::spawnable(w as int, h as int),
    {
        w > 16 && h > 6
    }

    /// What a shark made for a `w` by `h` viewport may look like.
    pub open spec fn fresh(self, w: int, h: int) -> bool {
        &&& UNIT <= self.x < axis_end(w, 15)
        &&& UNIT <= self.y < axis_end(h, 5)
        &&& 40 <= self.speed < 80
        &&& 5 <= self.v_speed < 20
        &&& is_direction(self.direction as int)
        &&& is_direction(self.v_direction as int)
    }

    /// The sprite that the shark shows: its own facing right, its mirror image
    /// facing left.
    pub open spec fn glyphs_spec(self) -> Seq<char> {
        if self.direction == -1 {
            mirrored(shark_sprite())
        } else {
            shark_sprite()
        }
    }

    /// A shark at a random place in a `w` by `h` viewport, with a random
    /// speed and heading.
    pub fn new(w: u16, h: u16, rng: &mut StdRng) -> (r: Shark)
        requires
            Shark::spawnable(w as int, h as int),
        ensures
            r.fresh(w as int, h as int),
            r.wf(),
    {
        let x = sample_range(rng, UNIT, axis_end_of(w, 15));
        let y = sample_range(rng, UNIT, axis_end_of(h, 5));
        let speed = sample_range(rng, 40, 80);
        let v_speed = sample_range(rng, 5, 20);
        let direction: i32 = if sample_ratio(rng, 1, 2) { 1 } else { -1 };
        let v_direction: i32 = if sample_ratio(rng, 1, 2) { 1 } else { -1 };
        Shark { x, y, speed, v_speed, direction, v_direction }
    }

    /// Moves the shark one tick in a `w` by `h` viewport; `flip` turns its
    /// vertical direction round after the bounce.
    pub fn advance(&mut self, w: u16, h: u16, flip: bool)
        requires
            old(self).wf(),
        ensures
            *final(self) == old(self).advanced(w as int, h as int, flip),
            final(self).wf(),
            Shark::room(w as int, h as int) ==> final(self).in_view(w as int, h as int),
            old(self).x + old(self).speed * old(self).direction <= UNIT ==> (final(self).x == UNIT
                && final(self).direction == 1),
    {
        let x_end = axis_end_of(w, SHARK_WIDTH);
        let y_end = axis_end_of(h, SHARK_BOTTOM);
        let (x, d) = reflect_axis(self.x, self.direction, self.speed, UNIT, x_end);
        let (y, vd) = reflect_axis(self.y, self.v_direction, self.v_speed, SHARK_TOP * UNIT, y_end);
        self.x = x;
        self.y = y;
        self.direction = d;
        self.v_direction = if flip { -vd } else { vd };
        proof {
            let o = *old(self);
            lemma_reflect_in_range(o.x + o.speed * o.direction, o.direction as int, 100, x_end as int);
            lemma_reflect_in_range(o.y + o.v_speed * o.v_direction, o.v_direction as int, 200, y_end as int);
        }
    }

    /// Moves the shark one tick; with chance 1 in 100 its vertical direction
    /// turns round.
    pub fn update(&mut self, w: u16, h: u16, rng: &mut StdRng)
        requires
            old(self).wf(),
        ensures
            *final(self) == old(self).advanced(w as int, h as int, false) || *final(self)
                == old(self).advanced(w as int, h as int, true),
            final(self).wf(),
            Shark::room(w as int, h as int) ==> final(self).in_view(w as int, h as int),
    {
        let flip = sample_ratio(rng, 1, 100);
        self.advance(w, h, flip);
    }

    /// The sprite that the shark shows, facing the way it swims.
    pub fn glyphs(&self) -> (r: Vec<char>)
        ensures
            r@ == self.glyphs_spec(),
    {
        let base = shark_sprite_chars();
        if self.direction == -1 {
            mirror(&base)
        } else {
            base
        }
    }
}

} // verus!
