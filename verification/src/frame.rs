//! Frames: 64 colour cells in row-major order, cell `row * 8 + col`.

use vstd::prelude::*;

verus! {

/// One colour cell: three 8-bit channel intensities.
#[derive(Clone, Copy, Debug, PartialEq, Eq, Structural)]
pub struct Rgb {
    pub r: u8,
    pub g: u8,
    pub b: u8,
}

/// One display update: 8 rows of 8 cells, row-major.
pub type Frame = [Rgb; 64];

/// The colour of a cell that is not lit.
pub open spec fn off() -> Rgb {
    Rgb { r: 0, g: 0, b: 0 }
}

/// The frame in which nothing is lit.
pub open spec fn blank_frame() -> Seq<Rgb> {
    Seq::new(64, |i: int| off())
}

/// The frame that shows `color` in the cells picked by `lit(row, col)` and
/// is off everywhere else.
pub open spec fn painted(lit: spec_fn(int, int) -> bool, color: Rgb) -> Seq<Rgb> {
    Seq::new(64, |i: int| if lit(i / 8, i % 8) { color } else { off() })
}

/// The off colour.
pub fn dark() -> (c: Rgb)
    ensures
        c == off(),
{
    Rgb { r: 0, g: 0, b: 0 }
}

/// A frame with every cell off.
pub fn blank() -> (out: Frame)
    ensures
        out@ == blank_frame(),
{
    let out: Frame = [dark(); 64];
    assert(out@ =~= blank_frame());
    out
}

} // verus!
