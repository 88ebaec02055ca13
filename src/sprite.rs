//! Sprites and their left/right mirror images.
use vstd::prelude::*;

verus! {

/// How many fish sprites there are.
pub const FISH_KINDS: usize = 6;

/// The sprite of fish kind `kind`, drawn facing right.
pub open spec fn fish_sprite(kind: int) -> Seq<char> {
    if kind == 0 {
        seq!['>', '<', '>']
    } else if kind == 1 {
        seq!['<', '\u{c2}', '\u{b0}', ')', ')', ')', '>', '<']
    } else if kind == 2 {
        seq!['(', 'Q', ')']
    } else if kind == 3 {
        seq!['>', '<', '(', '(', '\'', '>']
    } else if kind == 4 {
        seq!['<', '#', '#', '#', '-', '<']
    } else {
        seq!['*', '<']
    }
}

/// The shark's sprite, drawn facing right.
pub open spec fn shark_sprite() -> Seq<char> {
    seq!['_', '_', '_', '_', '/', '^', '\\', '_', '_', '_', '_', '<']
}

/// The character that `c` becomes in a mirror image: brackets swap with their
/// counterparts; all other characters stay.
pub open spec fn mirror_char_spec(c: char) -> char {
    if c == '<' {
        '>'
    } else if c == '>' {
        '<'
    } else if c == '(' {
        ')'
    } else if c == ')' {
        '('
    } else if c == '{' {
        '}'
    } else if c == '}' {
        '{'
    } else if c == '[' {
        ']'
    } else if c == ']' {
        '['
    } else {
        c
    }
}

/// The mirror image of a sprite: reversed, each character mirrored.
pub open spec fn mirrored(s: Seq<char>) -> Seq<char> {
    Seq::new(s.len(), |i: int| mirror_char_spec(s[s.len() - 1 - i]))
}

/// The character that `c` becomes in a mirror image.
pub fn mirror_char(c: char) -> (r: char)
    ensures
        r == mirror_char_spec(c),
{
    match c {
        '<' => '>',
        '>' => '<',
        '(' => ')',
        ')' => '(',
        '{' => '}',
        '}' => '{',
        '[' => ']',
        ']' => '[',
        _ => c,
    }
}

/// The mirror image of `s`.
pub fn mirror(s: &Vec<char>) -> (r: Vec<char>)
    ensures
        r@ == mirrored(s@),
{
    let mut r: Vec<char> = Vec::new();
    let n = s.len();
    let mut i: usize = 0;
    while i < n
        invariant
            n == s@.len(),
            i <= n,
            r@ == mirrored(s@).take(i as int),
        decreases n - i,
    {
        r.push(mirror_char(s[n - 1 - i]));
        i += 1;
        assert(r@ =~= mirrored(s@).take(i as int));
    }
    assert(r@ =~= mirrored(s@));
    r
}

/// Mirroring a character twice gives it back.
pub proof fn lemma_mirror_char_twice(c: char)
    ensures
        mirror_char_spec(mirror_char_spec(c)) == c,
{
}

/// Mirroring a sprite twice gives it back, whatever characters it holds.
pub proof fn lemma_mirror_twice(s: Seq<char>)
    ensures
        mirrored(mirrored(s)) == s,
{
    let m = mirrored(s);
    assert forall|i: int| 0 <= i < s.len() implies #[trigger] mirrored(m)[i] == s[i] by {
        lemma_mirror_char_twice(s[i]);
    }
    assert(mirrored(m) =~= s);
}

/// The sprite of fish kind `kind`, facing right.
pub fn fish_sprite_chars(kind: usize) -> (r: Vec<char>)
    requires
        kind < FISH_KINDS,
    ensures
        r@ == fish_sprite(kind as int),
{
    let r = match kind {
        0 => vec!['>', '<', '>'],
        1 => vec!['<', '\u{c2}', '\u{b0}', ')', ')', ')', '>', '<'],
        2 => vec!['(', 'Q', ')'],
        3 => vec!['>', '<', '(', '(', '\'', '>'],
        4 => vec!['<', '#', '#', '#', '-', '<'],
        _ => vec!['*', '<'],
    };
    assert(r@ =~= fish_sprite(kind as int));
    r
}

/// The width in cells of fish kind `kind`.
pub fn fish_width(kind: usize) -> (r: i64)
    requires
        kind < FISH_KINDS,
    ensures
        r == fish_sprite(kind as int).len(),
{
    match kind {
        0 => 3,
        1 => 8,
        2 => 3,
        3 => 6,
        4 => 6,
        _ => 2,
    }
}

/// The shark's sprite, facing right.
pub fn shark_sprite_chars() -> (r: Vec<char>)
    ensures
        r@ == shark_sprite(),
{
    let r = vec!['_', '_', '_', '_', '/', '^', '\\', '_', '_', '_', '_', '<'];
    assert(r@ =~= shark_sprite());
    r
}

/// The shark's width in cells.
pub const SHARK_WIDTH: i64 = 12;

} // verus!

verus! {

/// The colours that the display can be asked for.
#[derive(Clone, Copy, Debug, PartialEq, Eq, Structural)]
pub enum Tint {
    Red,
    Green,
    Yellow,
    Blue,
    Magenta,
    Cyan,
    White,
    DarkGrey,
    DarkBlue,
}

/// How many colours a fish may have.
pub const FISH_TINTS: usize = 7;

/// The colour of a fish for each index below `FISH_TINTS`.
pub open spec fn fish_tint_spec(i: int) -> Tint {
    if i == 0 {
        Tint::Red
    } else if i == 1 {
        Tint::Green
    } else if i == 2 {
        Tint::Yellow
    } else if i == 3 {
        Tint::Blue
    } else if i == 4 {
        Tint::Magenta
    } else if i == 5 {
        Tint::Cyan
    } else {
        Tint::White
    }
}

/// Whether a fish may have colour `t`.
pub open spec fn is_fish_tint(t: Tint) -> bool {
    exists|i: int| 0 <= i < FISH_TINTS && fish_tint_spec(i) == t
}

/// The colour of a fish for index `i`.
pub fn fish_tint(i: usize) -> (r: Tint)
    requires
        i < FISH_TINTS,
    ensures
        r == fish_tint_spec(i as int),
        is_fish_tint(r),
{
    match i {
        0 => Tint::Red,
        1 => Tint::Green,
        2 => Tint::Yellow,
        3 => Tint::Blue,
        4 => Tint::Magenta,
        5 => Tint::Cyan,
        _ => Tint::White,
    }
}

} // verus!
