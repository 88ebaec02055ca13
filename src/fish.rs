//! Fish: swim left and right, drift up and down, bounce off the edges.
use crate::chance::{sample_range, draw_index, sample_ratio};
use crate::motion::{
    axis_end, axis_end_of, coord_ok, is_direction, lemma_reflect_in_range, reflect, reflect_axis,
    SPEED_LIMIT, UNIT,
};
use crate::sprite::{
    fish_sprite, fish_sprite_chars, fish_tint, fish_width, is_fish_tint, mirror, mirrored, Tint,
    FISH_KINDS, FISH_TINTS,
};
use rand::rngs::StdRng;
use vstd::prelude::*;

verus! {

/// Cells kept free above the fish's range.
pub const FISH_TOP: i64 = 1;

/// Cells kept free below the fish's range.
pub const FISH_BOTTOM: i64 = 2;

/// A fish. Coordinates and speeds are in hundredths of a cell.
#[derive(Clone, Copy, Debug, PartialEq, Eq, Structural)]
pub struct Fish {
    pub x: i64,
    pub y: i64,
    pub speed: i64,
    pub v_speed: i64,
    /// `1` while swimming right, `-1` while swimming left.
    pub direction: i32,
    /// `1` while sinking, `-1` while rising.
    pub v_direction: i32,
    pub color: Tint,
    /// Which sprite the fish wears, below `FISH_KINDS`.
    pub kind: usize,
}

impl Fish {
    /// The fish's fields are in their ranges.
    pub open spec fn wf(self) -> bool {
        &&& coord_ok(self.x as int)
        &&& coord_ok(self.y as int)
        &&& 0 <= self.speed <= SPEED_LIMIT
        &&& 0 <= self.v_speed <= SPEED_LIMIT
        &&& is_direction(self.direction as int)
        &&& is_direction(self.v_direction as int)
        &&& self.kind < FISH_KINDS
    }

    /// The fish's width in cells.
    pub open spec fn width(self) -> int {
        fish_sprite(self.kind as int).len() as int
    }

    /// The right end of the fish's horizontal range in a viewport `w` wide.
    pub open spec fn x_end(self, w: int) -> int {
        axis_end(w, self.width())
    }

    /// The bottom end of the fish's vertical range in a viewport `h` high.
    pub open spec fn y_end(h: int) -> int {
        axis_end(h, FISH_BOTTOM as int)
    }

    /// The fish one tick later in a `w` by `h` viewport, where `flip` says
    /// whether chance turned its vertical direction round.
    pub open spec fn advanced(self, w: int, h: int, flip: bool) -> Fish {
        let (x, d) = reflect(
            self.x + self.speed * self.direction,
            self.direction as int,
            FISH_TOP * UNIT,
            self.x_end(w),
        );
        let (y, vd) = reflect(
            self.y + self.v_speed * self.v_direction,
            self.v_direction as int,
            FISH_TOP * UNIT,
            Fish::y_end(h),
        );
        Fish {
            x: x as i64,
            y: y as i64,
            direction: d as i32,
            v_direction: (if flip { -vd } else { vd }) as i32,
            ..self
        }
    }

    /// Whether the fish lies in the range that a `w` by `h` viewport allows it.
    pub open spec fn in_view(self, w: int, h: int) -> bool {
        &&& FISH_TOP * UNIT <= self.x <= self.x_end(w)
        &&& FISH_TOP * UNIT <= self.y <= Fish::y_end(h)
    }

    /// Whether `w` by `h` leaves a fish of every kind room to move.
    pub open spec fn room(w: int, h: int) -> bool {
        w >= 9 && h >= 3
    }

    /// Whether a fish can be placed at random in a `w` by `h` viewport: the
    /// ranges it is drawn from are not empty.
    pub open spec fn spawnable(w: int, h: int) -> bool {
        w > 11 && h > 3
    }

    /// Whether a fish can be placed at random in a `w` by `h` viewport.
    pub fn fits(w: u16, h: u16) -> (r: bool)
        ensures
            r == Fish::spawnable(w as int, h as int),
    {
        w > 11 && h > 3
    }

    /// What a fish made for a `w` by `h` viewport may look like.
    pub open spec fn fresh(self, w: int, h: int) -> bool {
        &&& UNIT <= self.x < axis_end(w, 10)
        &&& UNIT <= self.y < axis_end(h, 2)
        &&& 20 <= self.speed < 70
        &&& 5 <= self.v_speed < 20
        &&& is_direction(self.direction as int)
        &&& is_direction(self.v_direction as int)
        &&& is_fish_tint(self.color)
        &&& self.kind < FISH_KINDS
    }

    /// The sprite that the fish shows: its own facing right, its mirror image
    /// facing left.
    pub open spec fn glyphs_spec(self) -> Seq<char> {
        if self.direction == -1 {
            mirrored(fish_sprite(self.kind as int))
        } else {
            fish_sprite(self.kind as int)
        }
    }

    /// A fish at a random place in a `w` by `h` viewport, with a random
    /// speed, heading, colour and sprite.
    pub fn new(w: u16, h: u16, rng: &mut StdRng) -> (r: Fish)
        requires
            Fish::spawnable(w as int, h as int),
        ensures
            r.fresh(w as int, h as int),
            r.wf(),
    {
        let x = sample_range(rng, UNIT, axis_end_of(w, 10));
        let y = sample_range(rng, UNIT, axis_end_of(h, 2));
        let speed = sample_range(rng, 20, 70);
        let v_speed = sample_range(rng, 5, 20);
        let direction: i32 = if sample_ratio(rng, 1, 2) { 1 } else { -1 };
        let v_direction: i32 = if sample_ratio(rng, 1, 2) { 1 } else { -1 };
        let color = fish_tint(draw_index(rng, FISH_TINTS));
        let kind = draw_index(rng, FISH_KINDS);
        Fish { x, y, speed, v_speed, direction, v_direction, color, kind }
    }

    /// Moves the fish one tick in a `w` by `h` viewport; `flip` turns its
    /// vertical direction round after the bounce.
    pub fn advance(&mut self, w: u16, h: u16, flip: bool)
        requires
            old(self).wf(),
        ensures
            *final(self) == old(self).advanced(w as int, h as int, flip),
            final(self).wf(),
            Fish::room(w as int, h as int) ==> final(self).in_view(w as int, h as int),
            old(self).x + old(self).speed * old(self).direction <= FISH_TOP * UNIT ==> (final(self).x
                == FISH_TOP * UNIT && final(self).direction == 1),
    {
        let x_end = axis_end_of(w, fish_width(self.kind));
        let y_end = axis_end_of(h, FISH_BOTTOM);
        let (x, d) = reflect_axis(self.x, self.direction, self.speed, FISH_TOP * UNIT, x_end);
        let (y, vd) = reflect_axis(self.y, self.v_direction, self.v_speed, FISH_TOP * UNIT, y_end);
        self.x = x;
        self.y = y;
        self.direction = d;
        self.v_direction = if flip { -vd } else { vd };
        proof {
            let o = *old(self);
            lemma_reflect_in_range(o.x + o.speed * o.direction, o.direction as int, 100, x_end as int);
            lemma_reflect_in_range(o.y + o.v_speed * o.v_direction, o.v_direction as int, 100, y_end as int);
        }
    }

    /// Moves the fish one tick; with chance 1 in 50 its vertical direction
    /// turns round.
    pub fn update(&mut self, w: u16, h: u16, rng: &mut StdRng)
        requires
            old(self).wf(),
        ensures
            *final(self) == old(self).advanced(w as int, h as int, false) || *final(self)
                == old(self).advanced(w as int, h as int, true),
            final(self).wf(),
            Fish::room(w as int, h as int) ==> final(self).in_view(w as int, h as int),
    {
        let flip = sample_ratio(rng, 1, 50);
        self.advance(w, h, flip);
    }

    /// The sprite that the fish shows, facing the way it swims.
    pub fn glyphs(&self) -> (r: Vec<char>)
        requires
            self.wf(),
        ensures
            r@ == self.glyphs_spec(),
    {
        let base = fish_sprite_chars(self.kind);
        if self.direction == -1 {
            mirror(&base)
        } else {
            base
        }
    }
}

} // verus!
