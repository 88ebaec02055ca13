//! A frame as a list of draw commands: the waterline, then the bubbles, the
//! fish and the sharks, each drawn over what came before.
use crate::bubble::Bubble;
use crate::fish::Fish;
use crate::shark::Shark;
use crate::sprite::Tint;
use crate::tank::Aquarium;
use vstd::prelude::*;

verus! {

/// Write `glyphs` in colour `tint` from column `col` of row `row`.
pub struct DrawCmd {
    pub col: u16,
    pub row: u16,
    pub tint: Tint,
    pub glyphs: Vec<char>,
}

/// The screen cell of a coordinate in hundredths of a cell: rounded toward
/// zero, and held to `0..=u16::MAX`.
pub open spec fn cell(v: int) -> int {
    if v <= 0 {
        0
    } else if v / 100 > u16::MAX {
        u16::MAX as int
    } else {
        v / 100
    }
}

/// Whether `c` writes `glyphs` in `tint` at column `col` of row `row`.
pub open spec fn shows(c: DrawCmd, col: int, row: int, tint: Tint, glyphs: Seq<char>) -> bool {
    &&& c.col == col
    &&& c.row == row
    &&& c.tint == tint
    &&& c.glyphs@ == glyphs
}

/// The waterline's row: the bottom one.
pub open spec fn waterline_row(h: int) -> int {
    if h == 0 {
        0
    } else {
        h - 1
    }
}

/// The waterline: `w` wave characters.
pub open spec fn waterline(w: int) -> Seq<char> {
    Seq::new(w as nat, |i: int| '~')
}

/// The screen cell of `v`.
pub fn cell_of(v: i64) -> (r: u16)
    ensures
        r == cell(v as int),
{
    if v <= 0 {
        0
    } else if v / 100 > u16::MAX as i64 {
        u16::MAX
    } else {
        (v / 100) as u16
    }
}

/// The command that draws bubble `b`.
pub fn bubble_cmd(b: &Bubble) -> (r: DrawCmd)
    ensures
        shows(r, cell(b.x as int), cell(b.y as int), Tint::White, seq!['.']),
{
    let glyphs = vec!['.'];
    assert(glyphs@ =~= seq!['.']);
    DrawCmd { col: cell_of(b.x), row: cell_of(b.y), tint: Tint::White, glyphs }
}

/// The command that draws fish `f`.
pub fn fish_cmd(f: &Fish) -> (r: DrawCmd)
    requires
        f.wf(),
    ensures
        shows(r, cell(f.x as int), cell(f.y as int), f.color, f.glyphs_spec()),
{
    DrawCmd { col: cell_of(f.x), row: cell_of(f.y), tint: f.color, glyphs: f.glyphs() }
}

/// The command that draws shark `s`.
pub fn shark_cmd(s: &Shark) -> (r: DrawCmd)
    ensures
        shows(r, cell(s.x as int), cell(s.y as int), Tint::DarkGrey, s.glyphs_spec()),
{
    DrawCmd { col: cell_of(s.x), row: cell_of(s.y), tint: Tint::DarkGrey, glyphs: s.glyphs() }
}

/// The command that draws the waterline across a `w` by `h` viewport.
pub fn waterline_cmd(w: u16, h: u16) -> (r: DrawCmd)
    ensures
        shows(r, 0, waterline_row(h as int), Tint::DarkBlue, waterline(w as int)),
{
    let mut glyphs: Vec<char> = Vec::new();
    let mut i: u16 = 0;
    while i < w
        invariant
            i <= w,
            glyphs@ == waterline(i as int),
        decreases w - i,
    {
        glyphs.push('~');
        i += 1;
        assert(glyphs@ =~= waterline(i as int));
    }
    let row = if h == 0 { 0 } else { h - 1 };
    DrawCmd { col: 0, row, tint: Tint::DarkBlue, glyphs }
}

impl Aquarium {
    /// The commands that draw this frame on a cleared screen: the waterline,
    /// then each bubble, each fish and each shark in their order.
    pub fn frame(&self) -> (r: Vec<DrawCmd>)
        requires
            self.wf(),
        ensures
            r@.len() == 1 + self.bubbles@.len() + self.fishes@.len() + self.sharks@.len(),
            shows(
                r@[0],
                0,
                waterline_row(self.height as int),
                Tint::DarkBlue,
                waterline(self.width as int),
            ),
            forall|i: int|
                0 <= i < self.bubbles@.len() ==> #[trigger] shows(
                    r@[1 + i],
                    cell(self.bubbles@[i].x as int),
                    cell(self.bubbles@[i].y as int),
                    Tint::White,
                    seq!['.'],
                ),
            forall|i: int|
                0 <= i < self.fishes@.len() ==> #[trigger] shows(
                    r@[1 + self.bubbles@.len() + i],
                    cell(self.fishes@[i].x as int),
                    cell(self.fishes@[i].y as int),
                    self.fishes@[i].color,
                    self.fishes@[i].glyphs_spec(),
                ),
            forall|i: int|
                0 <= i < self.sharks@.len() ==> #[trigger] shows(
                    r@[1 + self.bubbles@.len() + self.fishes@.len() + i],
                    cell(self.sharks@[i].x as int),
                    cell(self.sharks@[i].y as int),
                    Tint::DarkGrey,
                    self.sharks@[i].glyphs_spec(),
                ),
    {
        let mut r: Vec<DrawCmd> = Vec::new();
        r.push(waterline_cmd(self.width, self.height));
        let nb = self.bubbles.len();
        let mut i: usize = 0;
        while i < nb
            invariant
                nb == self.bubbles@.len(),
                i <= nb,
                r@.len() == 1 + i,
                shows(
                    r@[0],
                    0,
                    waterline_row(self.height as int),
                    Tint::DarkBlue,
                    waterline(self.width as int),
                ),
                forall|k: int|
                    0 <= k < i ==> #[trigger] shows(
                        r@[1 + k],
                        cell(self.bubbles@[k].x as int),
                        cell(self.bubbles@[k].y as int),
                        Tint::White,
                        seq!['.'],
                    ),
            decreases nb - i,
        {
            r.push(bubble_cmd(&self.bubbles[i]));
            i += 1;
        }
        let nf = self.fishes.len();
        let mut j: usize = 0;
        while j < nf
            invariant
                self.wf(),
                nb == self.bubbles@.len(),
                nf == self.fishes@.len(),
                j <= nf,
                r@.len() == 1 + nb + j,
                shows(
                    r@[0],
                    0,
                    waterline_row(self.height as int),
                    Tint::DarkBlue,
                    waterline(self.width as int),
                ),
                forall|k: int|
                    0 <= k < nb ==> #[trigger] shows(
                        r@[1 + k],
                        cell(self.bubbles@[k].x as int),
                        cell(self.bubbles@[k].y as int),
                        Tint::White,
                        seq!['.'],
                    ),
                forall|k: int|
                    0 <= k < j ==> #[trigger] shows(
                        r@[1 + nb + k],
                        cell(self.fishes@[k].x as int),
                        cell(self.fishes@[k].y as int),
                        self.fishes@[k].color,
                        self.fishes@[k].glyphs_spec(),
                    ),
            decreases nf - j,
        {
            r.push(fish_cmd(&self.fishes[j]));
            j += 1;
        }
        let ns = self.sharks.len();
        let mut k: usize = 0;
        while k < ns
            invariant
                nb == self.bubbles@.len(),
                nf == self.fishes@.len(),
                ns == self.sharks@.len(),
                k <= ns,
                r@.len() == 1 + nb + nf + k,
                shows(
                    r@[0],
                    0,
                    waterline_row(self.height as int),
                    Tint::DarkBlue,
                    waterline(self.width as int),
                ),
                forall|m: int|
                    0 <= m < nb ==> #[trigger] shows(
                        r@[1 + m],
                        cell(self.bubbles@[m].x as int),
                        cell(self.bubbles@[m].y as int),
                        Tint::White,
                        seq!['.'],
                    ),
                forall|m: int|
                    0 <= m < nf ==> #[trigger] shows(
                        r@[1 + nb + m],
                        cell(self.fishes@[m].x as int),
                        cell(self.fishes@[m].y as int),
                        self.fishes@[m].color,
                        self.fishes@[m].glyphs_spec(),
                    ),
                forall|m: int|
                    0 <= m < k ==> #[trigger] shows(
                        r@[1 + nb + nf + m],
                        cell(self.sharks@[m].x as int),
                        cell(self.sharks@[m].y as int),
                        Tint::DarkGrey,
                        self.sharks@[m].glyphs_spec(),
                    ),
            decreases ns - k,
        {
            r.push(shark_cmd(&self.sharks[k]));
            k += 1;
        }
        r
    }
}

} // verus!
