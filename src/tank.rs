//! The aquarium: the viewport, its creatures, and one tick of the simulation.
use crate::bubble::{Bubble, SURFACE};
use crate::chance::sample_ratio;
use crate::fish::Fish;
use crate::motion::UNIT;
use crate::shark::Shark;
use rand::rngs::StdRng;
use vstd::prelude::*;

verus! {

/// How many fish a new aquarium holds.
pub const INITIAL_FISH: usize = 30;

/// How many sharks a new aquarium holds.
pub const INITIAL_SHARKS: usize = 2;

/// Below this many fish, a new one is added each tick.
pub const MIN_FISH: usize = 5;

/// A fish this close across to a shark, in cells, can be caught.
pub const REACH_X: i64 = 8;

/// A fish this close up or down to a shark, in cells, can be caught.
pub const REACH_Y: i64 = 2;

/// The viewport and everything that lives in it.
pub struct Aquarium {
    /// Viewport width in cells.
    pub width: u16,
    /// Viewport height in cells.
    pub height: u16,
    pub fishes: Vec<Fish>,
    pub bubbles: Vec<Bubble>,
    pub sharks: Vec<Shark>,
}

/// The distance between two coordinates.
pub open spec fn gap(a: int, b: int) -> int {
    if a >= b {
        a - b
    } else {
        b - a
    }
}

/// Whether shark `s` is close enough to fish `f` to catch it.
pub open spec fn caught(f: Fish, s: Shark) -> bool {
    gap(f.x as int, s.x as int) < REACH_X * UNIT && gap(f.y as int, s.y as int) < REACH_Y * UNIT
}

/// Whether some shark of `sharks` catches fish `f`.
pub open spec fn caught_by_any(f: Fish, sharks: Seq<Shark>) -> bool {
    exists|j: int| 0 <= j < sharks.len() && caught(f, #[trigger] sharks[j])
}

/// The fish of `fishes` that no shark of `sharks` catches, in their order.
pub open spec fn survivors(fishes: Seq<Fish>, sharks: Seq<Shark>) -> Seq<Fish> {
    fishes.filter(|f: Fish| !caught_by_any(f, sharks))
}

/// `after` is `before` with one fresh fish added at the end where `before`
/// has fewer than `MIN_FISH`, and `before` itself otherwise.
pub open spec fn restocked(before: Seq<Fish>, after: Seq<Fish>, w: int, h: int) -> bool {
    if before.len() < MIN_FISH {
        &&& after.len() == before.len() + 1
        &&& after.drop_last() == before
        &&& after.last().fresh(w, h)
    } else {
        after == before
    }
}

/// Each fish of `after` is the fish of `before` at its place, one tick later.
pub open spec fn fishes_moved(before: Seq<Fish>, after: Seq<Fish>, w: int, h: int) -> bool {
    &&& after.len() == before.len()
    &&& forall|i: int|
        0 <= i < before.len() ==> (#[trigger] after[i] == before[i].advanced(w, h, false)
            || after[i] == before[i].advanced(w, h, true))
}

/// Each shark of `after` is the shark of `before` at its place, one tick later.
pub open spec fn sharks_moved(before: Seq<Shark>, after: Seq<Shark>, w: int, h: int) -> bool {
    &&& after.len() == before.len()
    &&& forall|i: int|
        0 <= i < before.len() ==> (#[trigger] after[i] == before[i].advanced(w, h, false)
            || after[i] == before[i].advanced(w, h, true))
}

/// Each bubble of `after` is the bubble of `before` at its place, one tick
/// later in a viewport `w` wide.
pub open spec fn bubbles_moved(before: Seq<Bubble>, after: Seq<Bubble>, w: int) -> bool {
    &&& after.len() == before.len()
    &&& forall|i: int|
        0 <= i < before.len() ==> (#[trigger] after[i]).one_tick_after(before[i], w)
}

/// `after` is `before`, or `before` with one fresh bubble added at the end.
pub open spec fn maybe_spawned(before: Seq<Bubble>, after: Seq<Bubble>, w: int, h: int) -> bool {
    ||| after == before
    ||| (after.len() == before.len() + 1 && after.drop_last() == before && after.last().fresh(w, h))
}

/// The bubbles of `bubbles` that have not reached the surface, in their order.
pub open spec fn living(bubbles: Seq<Bubble>) -> Seq<Bubble> {
    bubbles.filter(|b: Bubble| b.alive())
}

/// Whether the shark `s` catches the fish `f`.
pub fn catches(s: &Shark, f: &Fish) -> (r: bool)
    requires
        s.wf(),
        f.wf(),
    ensures
        r == caught(*f, *s),
{
    let dx = if f.x >= s.x { f.x - s.x } else { s.x - f.x };
    let dy = if f.y >= s.y { f.y - s.y } else { s.y - f.y };
    dx < REACH_X * UNIT && dy < REACH_Y * UNIT
}

/// `s.take(i + 1).filter(p)` in terms of `s.take(i).filter(p)`.
proof fn lemma_filter_take_next<A>(s: Seq<A>, p: spec_fn(A) -> bool, i: int)
    requires
        0 <= i < s.len(),
    ensures
        s.take(i + 1).filter(p) == (if p(s[i]) {
            s.take(i).filter(p).push(s[i])
        } else {
            s.take(i).filter(p)
        }),
{
    let t = s.take(i + 1);
    assert(t.drop_last() =~= s.take(i));
    assert(t.len() > 0 && t.last() == s[i]);
    reveal_with_fuel(Seq::filter, 1);
}

impl Aquarium {
    /// Every creature's fields are in their ranges.
    pub open spec fn creatures_wf(&self) -> bool {
        &&& forall|i: int| 0 <= i < self.fishes@.len() ==> (#[trigger] self.fishes@[i]).wf()
        &&& forall|i: int| 0 <= i < self.sharks@.len() ==> (#[trigger] self.sharks@[i]).wf()
        &&& forall|i: int| 0 <= i < self.bubbles@.len() ==> (#[trigger] self.bubbles@[i]).wf()
    }

    /// Every creature's fields are in their ranges, and no bubble is more than
    /// a cell above the top, so each can rise another tick.
    pub open spec fn wf(&self) -> bool {
        &&& self.creatures_wf()
        &&& forall|i: int| 0 <= i < self.bubbles@.len() ==> (#[trigger] self.bubbles@[i]).y >= -UNIT
    }

    /// Whether fish and bubbles can be placed at random in the viewport.
    pub open spec fn spawnable(&self) -> bool {
        Fish::spawnable(self.width as int, self.height as int)
    }

    /// Whether the viewport leaves fish and sharks room to move.
    pub open spec fn roomy(&self) -> bool {
        Fish::room(self.width as int, self.height as int) && Shark::room(
            self.width as int,
            self.height as int,
        )
    }

    /// Every fish, shark and bubble lies in its range of the viewport.
    pub open spec fn all_in_view(&self) -> bool {
        &&& forall|i: int|
            0 <= i < self.bubbles@.len() ==> (#[trigger] self.bubbles@[i]).in_view(
                self.width as int,
            )
        &&& forall|i: int|
            0 <= i < self.fishes@.len() ==> (#[trigger] self.fishes@[i]).in_view(
                self.width as int,
                self.height as int,
            )
        &&& forall|i: int|
            0 <= i < self.sharks@.len() ==> (#[trigger] self.sharks@[i]).in_view(
                self.width as int,
                self.height as int,
            )
    }

    /// Every bubble is below the surface.
    pub open spec fn all_afloat(&self) -> bool {
        forall|i: int| 0 <= i < self.bubbles@.len() ==> (#[trigger] self.bubbles@[i]).alive()
    }
}


/// Where predation leaves fewer than `MIN_FISH` fish, exactly one fresh fish
/// is added, after all of those left.
pub proof fn lemma_one_fish_restocked(kept: Seq<Fish>, after: Seq<Fish>, w: int, h: int)
    requires
        restocked(kept, after, w, h),
        kept.len() < MIN_FISH,
    ensures
        after.len() == kept.len() + 1,
        after.take(kept.len() as int) == kept,
        after.last().fresh(w, h),
{
    assert(after.take(kept.len() as int) =~= after.drop_last());
}

/// A fish made for a viewport with room for fish lies in its range there.
pub proof fn lemma_fresh_fish_in_view(f: Fish, w: int, h: int)
    requires
        f.fresh(w, h),
        Fish::room(w, h),
    ensures
        f.in_view(w, h),
{
    assert(f.width() <= 8);
}

impl Aquarium {
    /// An aquarium `w` by `h` with `fish` fish and `sharks` sharks at random
    /// places, and no bubbles.
    pub fn new(w: u16, h: u16, fish: usize, sharks: usize, rng: &mut StdRng) -> (r: Aquarium)
        requires
            fish > 0 ==> Fish::spawnable(w as int, h as int),
            sharks > 0 ==> Shark::spawnable(w as int, h as int),
        ensures
            r.width == w,
            r.height == h,
            r.fishes@.len() == fish,
            r.sharks@.len() == sharks,
            r.bubbles@.len() == 0,
            forall|i: int| 0 <= i < fish ==> (#[trigger] r.fishes@[i]).fresh(w as int, h as int),
            forall|i: int| 0 <= i < sharks ==> (#[trigger] r.sharks@[i]).fresh(w as int, h as int),
            r.wf(),
    {
        let mut fishes: Vec<Fish> = Vec::new();
        let mut i: usize = 0;
        while i < fish
            invariant
                i <= fish,
                fish > 0 ==> Fish::spawnable(w as int, h as int),
                fishes@.len() == i,
                forall|k: int| 0 <= k < i ==> (#[trigger] fishes@[k]).fresh(w as int, h as int),
                forall|k: int| 0 <= k < i ==> (#[trigger] fishes@[k]).wf(),
            decreases fish - i,
        {
            fishes.push(Fish::new(w, h, rng));
            i += 1;
        }
        let mut all_sharks: Vec<Shark> = Vec::new();
        let mut j: usize = 0;
        while j < sharks
            invariant
                j <= sharks,
                sharks > 0 ==> Shark::spawnable(w as int, h as int),
                all_sharks@.len() == j,
                forall|k: int| 0 <= k < j ==> (#[trigger] all_sharks@[k]).fresh(w as int, h as int),
                forall|k: int| 0 <= k < j ==> (#[trigger] all_sharks@[k]).wf(),
            decreases sharks - j,
        {
            all_sharks.push(Shark::new(w, h, rng));
            j += 1;
        }
        Aquarium { width: w, height: h, fishes, bubbles: Vec::new(), sharks: all_sharks }
    }

    /// Moves every fish one tick.
    pub fn move_fishes(&mut self, rng: &mut StdRng)
        requires
            old(self).wf(),
        ensures
            fishes_moved(
                old(self).fishes@,
                final(self).fishes@,
                old(self).width as int,
                old(self).height as int,
            ),
            final(self).width == old(self).width,
            final(self).height == old(self).height,
            final(self).sharks@ == old(self).sharks@,
            final(self).bubbles@ == old(self).bubbles@,
            final(self).wf(),
            Fish::room(final(self).width as int, final(self).height as int) ==> forall|i: int|
                0 <= i < final(self).fishes@.len() ==> (#[trigger] final(self).fishes@[i]).in_view(
                    final(self).width as int,
                    final(self).height as int,
                ),
    {
        let (w, h) = (self.width, self.height);
        let mut moved: Vec<Fish> = Vec::new();
        let n = self.fishes.len();
        let mut i: usize = 0;
        while i < n
            invariant
                self.wf(),
                n == self.fishes@.len(),
                i <= n,
                moved@.len() == i,
                forall|k: int|
                    0 <= k < i ==> (#[trigger] moved@[k] == self.fishes@[k].advanced(
                        w as int,
                        h as int,
                        false,
                    ) || moved@[k] == self.fishes@[k].advanced(w as int, h as int, true)),
                forall|k: int| 0 <= k < i ==> (#[trigger] moved@[k]).wf(),
                Fish::room(w as int, h as int) ==> forall|k: int|
                    0 <= k < i ==> (#[trigger] moved@[k]).in_view(w as int, h as int),
            decreases n - i,
        {
            let mut f = self.fishes[i];
            f.update(w, h, rng);
            moved.push(f);
            i += 1;
        }
        self.fishes = moved;
    }

    /// Moves every shark one tick.
    pub fn move_sharks(&mut self, rng: &mut StdRng)
        requires
            old(self).wf(),
        ensures
            sharks_moved(
                old(self).sharks@,
                final(self).sharks@,
                old(self).width as int,
                old(self).height as int,
            ),
            final(self).width == old(self).width,
            final(self).height == old(self).height,
            final(self).fishes@ == old(self).fishes@,
            final(self).bubbles@ == old(self).bubbles@,
            final(self).wf(),
            Shark::room(final(self).width as int, final(self).height as int) ==> forall|i: int|
                0 <= i < final(self).sharks@.len() ==> (#[trigger] final(self).sharks@[i]).in_view(
                    final(self).width as int,
                    final(self).height as int,
                ),
    {
        let (w, h) = (self.width, self.height);
        let mut moved: Vec<Shark> = Vec::new();
        let n = self.sharks.len();
        let mut i: usize = 0;
        while i < n
            invariant
                self.wf(),
                n == self.sharks@.len(),
                i <= n,
                moved@.len() == i,
                forall|k: int|
                    0 <= k < i ==> (#[trigger] moved@[k] == self.sharks@[k].advanced(
                        w as int,
                        h as int,
                        false,
                    ) || moved@[k] == self.sharks@[k].advanced(w as int, h as int, true)),
                forall|k: int| 0 <= k < i ==> (#[trigger] moved@[k]).wf(),
                Shark::room(w as int, h as int) ==> forall|k: int|
                    0 <= k < i ==> (#[trigger] moved@[k]).in_view(w as int, h as int),
            decreases n - i,
        {
            let mut s = self.sharks[i];
            s.update(w, h, rng);
            moved.push(s);
            i += 1;
        }
        self.sharks = moved;
    }
}


impl Aquarium {
    /// Adds a fresh bubble at the bottom where `spawn` holds.
    pub fn add_bubble_if(&mut self, spawn: bool, rng: &mut StdRng)
        requires
            old(self).wf(),
            spawn ==> Bubble::spawnable(old(self).width as int),
        ensures
            spawn ==> (final(self).bubbles@.len() == old(self).bubbles@.len() + 1
                && final(self).bubbles@.drop_last() == old(self).bubbles@
                && final(self).bubbles@.last().fresh(old(self).width as int, old(self).height as int)),
            !spawn ==> final(self).bubbles@ == old(self).bubbles@,
            final(self).width == old(self).width,
            final(self).height == old(self).height,
            final(self).fishes@ == old(self).fishes@,
            final(self).sharks@ == old(self).sharks@,
            final(self).wf(),
    {
        if spawn {
            let b = Bubble::new(self.width, self.height, rng);
            self.bubbles.push(b);
            assert(self.bubbles@.drop_last() =~= old(self).bubbles@);
        }
    }

    /// With chance 1 in 5, adds a fresh bubble at the bottom.
    pub fn spawn_bubble(&mut self, rng: &mut StdRng)
        requires
            old(self).wf(),
            Bubble::spawnable(old(self).width as int),
        ensures
            maybe_spawned(
                old(self).bubbles@,
                final(self).bubbles@,
                old(self).width as int,
                old(self).height as int,
            ),
            final(self).width == old(self).width,
            final(self).height == old(self).height,
            final(self).fishes@ == old(self).fishes@,
            final(self).sharks@ == old(self).sharks@,
            final(self).wf(),
    {
        let spawn = sample_ratio(rng, 1, 5);
        self.add_bubble_if(spawn, rng);
    }

    /// Moves every bubble one tick.
    pub fn move_bubbles(&mut self, rng: &mut StdRng)
        requires
            old(self).wf(),
        ensures
            bubbles_moved(old(self).bubbles@, final(self).bubbles@, old(self).width as int),
            final(self).width == old(self).width,
            final(self).height == old(self).height,
            final(self).fishes@ == old(self).fishes@,
            final(self).sharks@ == old(self).sharks@,
            final(self).creatures_wf(),
            final(self).width >= 2 ==> (forall|i: int|
                0 <= i < final(self).bubbles@.len() ==> #[trigger] final(self).bubbles@[i].in_view(
                    final(self).width as int,
                )),
    {
        let w = self.width;
        let mut moved: Vec<Bubble> = Vec::new();
        let n = self.bubbles.len();
        let mut i: usize = 0;
        while i < n
            invariant
                self.wf(),
                n == self.bubbles@.len(),
                i <= n,
                moved@.len() == i,
                w == self.width,
                forall|k: int|
                    0 <= k < i ==> (#[trigger] moved@[k]).one_tick_after(self.bubbles@[k], w as int),
                forall|k: int| 0 <= k < i ==> (#[trigger] moved@[k]).wf(),
                w >= 2 ==> forall|k: int| 0 <= k < i ==> (#[trigger] moved@[k]).in_view(w as int),
            decreases n - i,
        {
            let mut b = self.bubbles[i];
            b.update(w, rng);
            moved.push(b);
            i += 1;
        }
        self.bubbles = moved;
    }

    /// Removes the bubbles that have reached the surface.
    pub fn drop_surfaced(&mut self)
        requires
            old(self).creatures_wf(),
        ensures
            final(self).bubbles@ == living(old(self).bubbles@),
            forall|i: int|
                0 <= i < final(self).bubbles@.len() ==> old(self).bubbles@.contains(
                    #[trigger] final(self).bubbles@[i],
                ),
            final(self).width == old(self).width,
            final(self).height == old(self).height,
            final(self).fishes@ == old(self).fishes@,
            final(self).sharks@ == old(self).sharks@,
            final(self).wf(),
            final(self).all_afloat(),
    {
        let ghost p = |b: Bubble| b.alive();
        let mut kept: Vec<Bubble> = Vec::new();
        let n = self.bubbles.len();
        let mut i: usize = 0;
        while i < n
            invariant
                self.creatures_wf(),
                p == (|b: Bubble| b.alive()),
                n == self.bubbles@.len(),
                i <= n,
                kept@ == self.bubbles@.take(i as int).filter(p),
                forall|k: int|
                    0 <= k < kept@.len() ==> exists|j: int|
                        0 <= j < i && #[trigger] kept@[k] == self.bubbles@[j],
                forall|k: int| 0 <= k < kept@.len() ==> (#[trigger] kept@[k]).wf(),
                forall|k: int| 0 <= k < kept@.len() ==> (#[trigger] kept@[k]).alive(),
            decreases n - i,
        {
            let b = self.bubbles[i];
            proof {
                lemma_filter_take_next(self.bubbles@, p, i as int);
            }
            if b.y > SURFACE {
                kept.push(b);
            }
            i += 1;
        }
        assert(self.bubbles@.take(n as int) =~= self.bubbles@);
        self.bubbles = kept;
    }

    /// Whether some shark catches the fish `f`.
    pub fn caught_by_a_shark(&self, f: &Fish) -> (r: bool)
        requires
            self.wf(),
            f.wf(),
        ensures
            r == caught_by_any(*f, self.sharks@),
    {
        let n = self.sharks.len();
        let mut i: usize = 0;
        while i < n
            invariant
                self.wf(),
                f.wf(),
                n == self.sharks@.len(),
                i <= n,
                forall|k: int| 0 <= k < i ==> !caught(*f, #[trigger] self.sharks@[k]),
            decreases n - i,
        {
            if catches(&self.sharks[i], f) {
                return true;
            }
            i += 1;
        }
        false
    }

    /// Removes every fish that some shark catches.
    pub fn devour(&mut self)
        requires
            old(self).wf(),
        ensures
            final(self).fishes@ == survivors(old(self).fishes@, old(self).sharks@),
            final(self).width == old(self).width,
            final(self).height == old(self).height,
            final(self).sharks@ == old(self).sharks@,
            final(self).bubbles@ == old(self).bubbles@,
            final(self).wf(),
            forall|i: int|
                0 <= i < final(self).fishes@.len() ==> old(self).fishes@.contains(
                    #[trigger] final(self).fishes@[i],
                ),
    {
        let ghost p = |f: Fish| !caught_by_any(f, self.sharks@);
        let mut kept: Vec<Fish> = Vec::new();
        let n = self.fishes.len();
        let mut i: usize = 0;
        while i < n
            invariant
                self.wf(),
                p == (|f: Fish| !caught_by_any(f, self.sharks@)),
                n == self.fishes@.len(),
                i <= n,
                kept@ == self.fishes@.take(i as int).filter(p),
                forall|k: int|
                    0 <= k < kept@.len() ==> exists|j: int|
                        0 <= j < i && #[trigger] kept@[k] == self.fishes@[j],
            decreases n - i,
        {
            let f = self.fishes[i];
            proof {
                lemma_filter_take_next(self.fishes@, p, i as int);
            }
            if !self.caught_by_a_shark(&f) {
                kept.push(f);
            }
            i += 1;
        }
        assert(self.fishes@.take(n as int) =~= self.fishes@);
        self.fishes = kept;
    }

    /// Adds one fresh fish where fewer than `MIN_FISH` are left.
    pub fn restock(&mut self, rng: &mut StdRng)
        requires
            old(self).wf(),
            old(self).fishes@.len() < MIN_FISH ==> old(self).spawnable(),
        ensures
            restocked(
                old(self).fishes@,
                final(self).fishes@,
                old(self).width as int,
                old(self).height as int,
            ),
            final(self).width == old(self).width,
            final(self).height == old(self).height,
            final(self).sharks@ == old(self).sharks@,
            final(self).bubbles@ == old(self).bubbles@,
            final(self).wf(),
    {
        if self.fishes.len() < MIN_FISH {
            let f = Fish::new(self.width, self.height, rng);
            self.fishes.push(f);
            assert(self.fishes@.drop_last() =~= old(self).fishes@);
        }
    }
}


impl Aquarium {
    /// One tick: every fish and every shark moves; a bubble may rise from the
    /// bottom, every bubble rises, and those at the surface are gone; the
    /// fish that a shark catches are gone; where fewer than `MIN_FISH` fish
    /// are left, a fresh one is added.
    pub fn step(&mut self, rng: &mut StdRng)
        requires
            old(self).wf(),
            old(self).spawnable(),
        ensures
            final(self).width == old(self).width,
            final(self).height == old(self).height,
            final(self).wf(),
            sharks_moved(
                old(self).sharks@,
                final(self).sharks@,
                old(self).width as int,
                old(self).height as int,
            ),
            exists|m: Seq<Fish>|
                #[trigger] fishes_moved(
                    old(self).fishes@,
                    m,
                    old(self).width as int,
                    old(self).height as int,
                ) && restocked(
                    survivors(m, final(self).sharks@),
                    final(self).fishes@,
                    old(self).width as int,
                    old(self).height as int,
                ),
            exists|spawned: Seq<Bubble>, m: Seq<Bubble>|
                #[trigger] maybe_spawned(
                    old(self).bubbles@,
                    spawned,
                    old(self).width as int,
                    old(self).height as int,
                ) && #[trigger] bubbles_moved(spawned, m, old(self).width as int) && final(self).bubbles@ == living(m),
            final(self).all_afloat(),
            old(self).roomy() ==> final(self).all_in_view(),
    {
        self.move_fishes(rng);
        let ghost moved_fish = self.fishes@;
        self.move_sharks(rng);
        self.spawn_bubble(rng);
        let ghost spawned = self.bubbles@;
        self.move_bubbles(rng);
        let ghost moved_bubbles = self.bubbles@;
        self.drop_surfaced();
        self.devour();
        let ghost kept = self.fishes@;
        self.restock(rng);
        proof {
            let (w, h) = (self.width as int, self.height as int);
            if self.roomy() {
                assert forall|i: int| 0 <= i < self.fishes@.len() implies (
                #[trigger] self.fishes@[i]).in_view(w, h) by {
                    if i < kept.len() {
                        assert(self.fishes@[i] == kept[i]);
                        assert(moved_fish.contains(kept[i]));
                    } else {
                        lemma_fresh_fish_in_view(self.fishes@[i], w, h);
                    }
                }
                assert forall|i: int| 0 <= i < self.bubbles@.len() implies (
                #[trigger] self.bubbles@[i]).in_view(w) by {
                    assert(moved_bubbles.contains(self.bubbles@[i]));
                }
            }
            assert(fishes_moved(old(self).fishes@, moved_fish, w, h));
            assert(maybe_spawned(old(self).bubbles@, spawned, w, h));
            assert(bubbles_moved(spawned, moved_bubbles, w));
        }
    }
}

} // verus!
