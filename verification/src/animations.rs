//! The four pattern generators. Each owns its phase, advances it by one
//! tick with `next` and draws the frame of the current phase with `to_list`.

use vstd::prelude::*;
use crate::frame::{Frame, Rgb, off, painted, dark};

verus! {

/// The colour of the bouncing column.
pub open spec fn green() -> Rgb {
    Rgb { r: 0, g: 64, b: 0 }
}

/// One tick of the bounce: a column walks 0..7 and back, turning at either
/// end without showing the end column twice.
pub open spec fn bounce_step(s: (int, bool)) -> (int, bool) {
    if s.1 {
        if s.0 < 7 { (s.0 + 1, true) } else { (s.0 - 1, false) }
    } else {
        if s.0 > 0 { (s.0 - 1, false) } else { (s.0 + 1, true) }
    }
}

/// `n` ticks of the bounce.
pub open spec fn bounce_steps(s: (int, bool), n: nat) -> (int, bool)
    decreases n,
{
    if n == 0 { s } else { bounce_steps(bounce_step(s), (n - 1) as nat) }
}

/// The frame of the bounce at `position`: that column lit in all 8 rows.
pub open spec fn bounce_frame(position: int) -> Seq<Rgb> {
    painted(|row: int, col: int| col == position, green())
}

/// A lit column that bounces between the left and the right edge.
pub struct RightTiltAnimation {
    position: usize,
    up: bool,
}

impl RightTiltAnimation {
    #[verifier::type_invariant]
    spec fn in_range(&self) -> bool {
        self.position <= 7
    }

    /// The state: the lit column and whether it is moving up.
    pub closed spec fn state(&self) -> (int, bool) {
        (self.position as int, self.up)
    }

    /// The bounce at its start: column 0, moving up.
    pub fn new() -> (a: Self)
        ensures
            a.state() == (0int, true),
    {
        Self { position: 0, up: true }
    }

    /// The lit column.
    pub fn position(&self) -> (p: usize)
        ensures
            p == self.state().0,
            p <= 7,
    {
        proof { use_type_invariant(self); }
        self.position
    }

    /// Whether the column is moving towards column 7.
    pub fn ascending(&self) -> (up: bool)
        ensures
            up == self.state().1,
    {
        self.up
    }

    /// Moves the column on by one tick. It stays on the grid.
    pub fn next(&mut self)
        ensures
            final(self).state() == bounce_step(old(self).state()),
            0 <= final(self).state().0 <= 7,
    {
        proof { use_type_invariant(&*self); }
        if self.up {
            if self.position < 7 {
                self.position += 1;
            } else {
                self.up = false;
                self.position -= 1;
            }
        } else {
            if self.position > 0 {
                self.position -= 1;
            } else {
                self.up = true;
                self.position += 1;
            }
        }
    }

    /// The frame of the current tick: the column lit in every row.
    pub fn to_list(&self) -> (out: Frame)
        ensures
            out@ == bounce_frame(self.state().0),
    {
        let mut pixels: Frame = [dark(); 64];
        let mut i: usize = 0;
        while i < 64
            invariant
                i <= 64,
                forall|j: int| 0 <= j < i ==> pixels@[j] == bounce_frame(self.state().0)[j],
            decreases 64 - i,
        {
            pixels[i] = if i % 8 == self.position { Rgb { r: 0, g: 64, b: 0 } } else { dark() };
            i += 1;
        }
        assert(pixels@ =~= bounce_frame(self.state().0));
        pixels
    }
}

/// The bounce never leaves the grid: from a column in 0..=7, any number of
/// ticks leads to a column in 0..=7.
pub proof fn lemma_bounce_stays_on_grid(s: (int, bool), n: nat)
    requires
        0 <= s.0 <= 7,
    ensures
        0 <= bounce_steps(s, n).0 <= 7,
    decreases n,
{
    if n > 0 {
        lemma_bounce_stays_on_grid(bounce_step(s), (n - 1) as nat);
    }
}

/// The bounce has period 14: once it has made a tick, fourteen more bring
/// back the same column and the same direction.
pub proof fn lemma_bounce_period(s: (int, bool))
    requires
        0 <= s.0 <= 7,
    ensures
        bounce_steps(bounce_step(s), 14) == bounce_step(s),
{
    reveal_with_fuel(bounce_steps, 15);
}

/// Fourteen ticks after the start the column is back at 0, having just
/// come down, and the next tick is the first tick again.
pub proof fn lemma_bounce_round_trip()
    ensures
        bounce_steps((0int, true), 14) == (0int, false),
        bounce_steps((0int, true), 15) == bounce_step((0int, true)),
{
    reveal_with_fuel(bounce_steps, 16);
}

/// The colour of the ripple.
pub open spec fn magenta() -> Rgb {
    Rgb { r: 64, g: 0, b: 64 }
}

/// The row that shows a wave height: the height itself, held to 0..=7.
pub open spec fn clamp_row(height: int) -> int {
    if height < 0 { 0 } else if height > 7 { 7 } else { height }
}

/// The frame of the ripple for the 8 wave heights of one phase: in each
/// column the cell at the clamped height.
pub open spec fn ripple_frame(heights: Seq<i32>) -> Seq<Rgb> {
    painted(|row: int, col: int| row == clamp_row(heights[col] as int), magenta())
}

/// The row that shows a wave height.
pub fn row_of(height: i32) -> (row: usize)
    ensures
        row == clamp_row(height as int),
        row <= 7,
{
    if height < 0 { 0 } else if height > 7 { 7 } else { height as usize }
}

/// A sine ripple that travels across the columns. The wave heights are
/// given when the animation is made: `heights[phase][col]` is
/// `sin((phase + col * 0.8) * 0.8) * 3.5 + 3.5`, rounded to an integer.
pub struct LeftTiltAnimation {
    wave_position: u8,
    heights: [[i32; 8]; 8],
}

impl LeftTiltAnimation {
    #[verifier::type_invariant]
    spec fn in_range(&self) -> bool {
        self.wave_position < 8
    }

    /// The phase, in 0..8.
    pub closed spec fn state(&self) -> int {
        self.wave_position as int
    }

    /// The wave heights by phase and column.
    pub closed spec fn table(&self) -> [[i32; 8]; 8] {
        self.heights
    }

    /// The ripple at phase 0, with the given wave heights.
    pub fn new(heights: [[i32; 8]; 8]) -> (a: Self)
        ensures
            a.state() == 0,
            a.table() == heights,
    {
        Self { wave_position: 0, heights }
    }

    /// The phase.
    pub fn phase(&self) -> (p: u8)
        ensures
            p == self.state(),
            p < 8,
    {
        proof { use_type_invariant(self); }
        self.wave_position
    }

    /// Moves the phase on by one tick, from 7 back to 0.
    pub fn next(&mut self)
        ensures
            final(self).state() == (old(self).state() + 1) % 8,
            0 <= final(self).state() < 8,
            final(self).table() == old(self).table(),
    {
        proof { use_type_invariant(&*self); }
        self.wave_position = (self.wave_position + 1) % 8;
    }

    /// The frame of the current phase: one cell in each column.
    pub fn to_list(&self) -> (out: Frame)
        ensures
            0 <= self.state() < 8,
            out@ == ripple_frame(self.table()[self.state()]@),
    {
        proof { use_type_invariant(self); }
        let ghost want = ripple_frame(self.table()[self.state()]@);
        let mut pixels: Frame = [dark(); 64];
        let mut i: usize = 0;
        while i < 64
            invariant
                i <= 64,
                self.wave_position < 8,
                want == ripple_frame(self.table()[self.state()]@),
                forall|j: int| 0 <= j < i ==> pixels@[j] == want[j],
            decreases 64 - i,
        {
            let height: i32 = self.heights[self.wave_position as usize][i % 8];
            pixels[i] = if i / 8 == row_of(height) { Rgb { r: 64, g: 0, b: 64 } } else { dark() };
            i += 1;
        }
        assert(pixels@ =~= want);
        pixels
    }
}

/// The ripple lights one cell in each column, in a row of the grid,
/// whatever the wave heights are.
pub proof fn lemma_ripple_one_cell_per_column(heights: Seq<i32>, col: int)
    requires
        0 <= col < 8,
    ensures
        0 <= clamp_row(heights[col] as int) <= 7,
        forall|row: int| 0 <= row < 8 ==> #[trigger] ripple_frame(heights)[row * 8 + col] == (
            if row == clamp_row(heights[col] as int) { magenta() } else { off() }),
{
    assert forall|row: int| 0 <= row < 8 implies #[trigger] ripple_frame(heights)[row * 8 + col] == (
        if row == clamp_row(heights[col] as int) { magenta() } else { off() }) by {
        assert((row * 8 + col) / 8 == row);
        assert((row * 8 + col) % 8 == col);
    }
}

/// The colour of the ring.
pub open spec fn blue() -> Rgb {
    Rgb { r: 0, g: 0, b: 64 }
}

/// Whether the cell at (`row`, `col`) lies on the ring of the given radius
/// round the centre (3.5, 3.5): its distance from the centre differs from
/// the radius by less than 0.8. The radius is in thousandths of a cell.
/// With `d2` four times the squared distance, `distance < radius + 0.8`
/// reads `1_000_000 * d2 < (2 * radius + 1600)^2`, and likewise below.
pub open spec fn ring_lit(radius: int, row: int, col: int) -> bool {
    let d2 = (2 * col - 7) * (2 * col - 7) + (2 * row - 7) * (2 * row - 7);
    let outer = 2 * radius + 1600;
    let inner = 2 * radius - 1600;
    1_000_000 * d2 < outer * outer && (inner < 0 || 1_000_000 * d2 > inner * inner)
}

/// The frame of the ring of the given radius.
pub open spec fn ring_frame(radius: int) -> Seq<Rgb> {
    painted(|row: int, col: int| ring_lit(radius, row, col), blue())
}

/// Whether the cell at (`row`, `col`) lies on the ring of the given radius.
pub fn on_ring(radius: u16, row: u8, col: u8) -> (lit: bool)
    ensures
        lit == ring_lit(radius as int, row as int, col as int),
{
    let dx: i64 = 2 * (col as i64) - 7;
    let dy: i64 = 2 * (row as i64) - 7;
    assert(0 <= dx * dx <= 253009) by (nonlinear_arith)
        requires
            -7 <= dx <= 503,
    ;
    assert(0 <= dy * dy <= 253009) by (nonlinear_arith)
        requires
            -7 <= dy <= 503,
    ;
    let d2: i64 = dx * dx + dy * dy;
    let outer: i64 = 2 * (radius as i64) + 1600;
    let inner: i64 = 2 * (radius as i64) - 1600;
    assert(0 <= outer * outer <= 17_601_328_900) by (nonlinear_arith)
        requires
            1600 <= outer <= 132670,
    ;
    assert(0 <= inner * inner <= 16_762_480_900) by (nonlinear_arith)
        requires
            -1600 <= inner <= 129470,
    ;
    1_000_000 * d2 < outer * outer && (inner < 0 || 1_000_000 * d2 > inner * inner)
}

/// A ring round the centre of the grid whose radius pulses. The radii are
/// given when the animation is made: `radii[frame]` is
/// `|sin(frame * pi / 8) * 3 + 1|`, in thousandths of a cell.
pub struct ForwardTiltAnimation {
    frame: u8,
    radii: [u16; 16],
}

impl ForwardTiltAnimation {
    #[verifier::type_invariant]
    spec fn in_range(&self) -> bool {
        self.frame < 16
    }

    /// The frame counter, in 0..16.
    pub closed spec fn state(&self) -> int {
        self.frame as int
    }

    /// The radius of each frame, in thousandths of a cell.
    pub closed spec fn table(&self) -> [u16; 16] {
        self.radii
    }

    /// The ring at frame 0, with the given radii.
    pub fn new(radii: [u16; 16]) -> (a: Self)
        ensures
            a.state() == 0,
            a.table() == radii,
    {
        Self { frame: 0, radii }
    }

    /// The frame counter.
    pub fn frame(&self) -> (f: u8)
        ensures
            f == self.state(),
            f < 16,
    {
        proof { use_type_invariant(self); }
        self.frame
    }

    /// Moves the frame counter on by one tick, from 15 back to 0.
    pub fn next(&mut self)
        ensures
            final(self).state() == (old(self).state() + 1) % 16,
            0 <= final(self).state() < 16,
            final(self).table() == old(self).table(),
    {
        proof { use_type_invariant(&*self); }
        self.frame = (self.frame + 1) % 16;
    }

    /// The frame of the current tick: the ring of its radius. The frame
    /// depends on the counter alone, so drawing twice gives the same.
    pub fn to_list(&self) -> (out: Frame)
        ensures
            0 <= self.state() < 16,
            out@ == ring_frame(self.table()[self.state()] as int),
    {
        proof { use_type_invariant(self); }
        let radius: u16 = self.radii[self.frame as usize];
        let mut pixels: Frame = [dark(); 64];
        let mut i: usize = 0;
        while i < 64
            invariant
                i <= 64,
                forall|j: int| 0 <= j < i ==> pixels@[j] == ring_frame(radius as int)[j],
            decreases 64 - i,
        {
            let row: u8 = (i / 8) as u8;
            let col: u8 = (i % 8) as u8;
            pixels[i] = if on_ring(radius, row, col) { Rgb { r: 0, g: 0, b: 64 } } else { dark() };
            i += 1;
        }
        assert(pixels@ =~= ring_frame(radius as int));
        pixels
    }
}

/// The colour of the stripes.
pub open spec fn yellow() -> Rgb {
    Rgb { r: 64, g: 64, b: 0 }
}

/// The frame of the stripes: the diagonals on which `col + row + frame / 2`
/// is a multiple of 4.
pub open spec fn stripe_frame(frame: int) -> Seq<Rgb> {
    painted(|row: int, col: int| (col + row + frame / 2) % 4 == 0, yellow())
}

/// `n` ticks of an 8-bit counter that wraps from 255 to 0.
pub open spec fn wrap_steps(frame: int, n: nat) -> int
    decreases n,
{
    if n == 0 { frame } else { wrap_steps((frame + 1) % 256, (n - 1) as nat) }
}

/// Diagonal stripes that scroll by one cell every second tick.
pub struct BackwardTiltAnimation {
    frame: u8,
}

impl BackwardTiltAnimation {
    /// The frame counter, in 0..256.
    pub closed spec fn state(&self) -> int {
        self.frame as int
    }

    /// The stripes at frame 0.
    pub fn new() -> (a: Self)
        ensures
            a.state() == 0,
    {
        Self { frame: 0 }
    }

    /// The frame counter.
    pub fn frame(&self) -> (f: u8)
        ensures
            f == self.state(),
    {
        self.frame
    }

    /// Moves the frame counter on by one tick, from 255 back to 0.
    pub fn next(&mut self)
        ensures
            final(self).state() == (old(self).state() + 1) % 256,
            0 <= final(self).state() < 256,
    {
        self.frame = self.frame.wrapping_add(1);
    }

    /// The frame of the current tick.
    pub fn to_list(&self) -> (out: Frame)
        ensures
            out@ == stripe_frame(self.state()),
    {
        let shift: usize = (self.frame / 2) as usize;
        let mut pixels: Frame = [dark(); 64];
        let mut i: usize = 0;
        while i < 64
            invariant
                i <= 64,
                shift == self.state() / 2,
                forall|j: int| 0 <= j < i ==> pixels@[j] == stripe_frame(self.state())[j],
            decreases 64 - i,
        {
            pixels[i] = if (i % 8 + i / 8 + shift) % 4 == 0 { Rgb { r: 64, g: 64, b: 0 } } else { dark() };
            i += 1;
        }
        assert(pixels@ =~= stripe_frame(self.state()));
        pixels
    }
}

/// `n` ticks of the wrapping counter add `n` modulo 256.
pub proof fn lemma_wrap_steps(frame: int, n: nat)
    requires
        0 <= frame < 256,
    ensures
        wrap_steps(frame, n) == (frame + n) % 256,
    decreases n,
{
    if n > 0 {
        lemma_wrap_steps((frame + 1) % 256, (n - 1) as nat);
    }
}

/// The stripes repeat when the counter wraps: 256 ticks bring back the same
/// counter and so the same frame.
pub proof fn lemma_stripes_wrap(frame: int)
    requires
        0 <= frame < 256,
    ensures
        wrap_steps(frame, 256) == frame,
        stripe_frame(wrap_steps(frame, 256)) == stripe_frame(frame),
{
    lemma_wrap_steps(frame, 256);
}

} // verus!
