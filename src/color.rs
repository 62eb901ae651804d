//! Clear colours held as exact quotients.

use vstd::prelude::*;

verus! {

/// A size in physical pixels.
#[derive(Clone, Copy, Debug, PartialEq, Eq, Structural)]
pub struct PixelSize {
    pub width: u32,
    pub height: u32,
}

/// A pointer position in window-local physical pixels. It may lie outside
/// the window (negative, or past the edges) while a drag goes on.
#[derive(Clone, Copy, Debug, PartialEq, Eq, Structural)]
pub struct CursorPosition {
    pub x: i64,
    pub y: i64,
}

/// One colour channel, held as the quotient `num / den` without reducing it.
#[derive(Clone, Copy, Debug, PartialEq, Eq, Structural)]
pub struct Ratio {
    pub num: i64,
    pub den: u32,
}

/// The colour a render pass clears its target to.
#[derive(Clone, Copy, Debug, PartialEq, Eq, Structural)]
pub struct ClearColor {
    pub r: Ratio,
    pub g: Ratio,
    pub b: Ratio,
    pub a: Ratio,
}

/// Blue is fixed at three tenths.
pub open spec fn fixed_blue() -> Ratio {
    Ratio { num: 3, den: 10 }
}

/// Alpha is fixed at one.
pub open spec fn fixed_alpha() -> Ratio {
    Ratio { num: 1, den: 1 }
}

/// The colour shown before the pointer first moves: (0.1, 0.2, 0.3, 1).
pub open spec fn initial_color() -> ClearColor {
    ClearColor {
        r: Ratio { num: 1, den: 10 },
        g: Ratio { num: 2, den: 10 },
        b: fixed_blue(),
        a: fixed_alpha(),
    }
}

/// Red is `x / width`, green is `y / height`; no clamping.
pub open spec fn color_at(pos: CursorPosition, size: PixelSize) -> ClearColor {
    ClearColor {
        r: Ratio { num: pos.x, den: size.width },
        g: Ratio { num: pos.y, den: size.height },
        b: fixed_blue(),
        a: fixed_alpha(),
    }
}

impl Ratio {
    /// `num / den` equals `n / d` as rational numbers (both denominators non-zero).
    pub open spec fn same_value(self, n: int, d: int) -> bool {
        self.den > 0 && d > 0 && self.num * d == n * self.den
    }
}

pub fn initial_clear_color() -> (c: ClearColor)
    ensures
        c == initial_color(),
{
    ClearColor {
        r: Ratio { num: 1, den: 10 },
        g: Ratio { num: 2, den: 10 },
        b: Ratio { num: 3, den: 10 },
        a: Ratio { num: 1, den: 1 },
    }
}

/// The clear colour for a pointer at `pos` in a window of `size`.
pub fn clear_color_at(pos: CursorPosition, size: PixelSize) -> (c: ClearColor)
    ensures
        c == color_at(pos, size),
        c.r.num == pos.x && c.r.den == size.width,
        c.g.num == pos.y && c.g.den == size.height,
        c.b == fixed_blue(),
        c.a == fixed_alpha(),
{
    ClearColor {
        r: Ratio { num: pos.x, den: size.width },
        g: Ratio { num: pos.y, den: size.height },
        b: Ratio { num: 3, den: 10 },
        a: Ratio { num: 1, den: 1 },
    }
}

} // verus!
