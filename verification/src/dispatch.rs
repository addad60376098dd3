//! From an orientation sample to the frame of one tick: which animation a
//! tilt selects, and the rule that only the selected one draws and moves on.

use vstd::prelude::*;
use crate::animations::{
    BackwardTiltAnimation, ForwardTiltAnimation, LeftTiltAnimation, RightTiltAnimation,
    bounce_frame, bounce_step, ring_frame, ripple_frame, stripe_frame,
};
use crate::frame::{Frame, Rgb, blank, blank_frame};
use crate::lis3dh::OrientationSample;

verus! {

/// The deadzone, 0.2 g in nano-g: an axis must exceed it to count as tilted.
pub const DEADZONE: i64 = 200_000_000;

/// The direction of a tilt, or `Level` where there is none.
#[derive(Clone, Copy, Debug, PartialEq, Eq, Structural)]
pub enum Tilt {
    Right,
    Left,
    Forward,
    Backward,
    Level,
}

/// The size of a reading, whatever its sign.
pub open spec fn magnitude(v: int) -> int {
    if v < 0 { -v } else { v }
}

/// The tilt that the board-frame readings `x` and `y` show. The axis of
/// larger magnitude decides alone, `y` where they are equal; on that axis
/// the reading must lie beyond the deadzone.
pub open spec fn tilt_of(x: int, y: int) -> Tilt {
    if magnitude(x) > magnitude(y) {
        if x > DEADZONE { Tilt::Right } else if x < -DEADZONE { Tilt::Left } else { Tilt::Level }
    } else {
        if y > DEADZONE { Tilt::Forward } else if y < -DEADZONE { Tilt::Backward } else { Tilt::Level }
    }
}

/// The tilt that a sensor sample shows: the sensor is mounted so that its
/// x and y axes point against the board's.
pub open spec fn tilt_of_sample(sample: OrientationSample) -> Tilt {
    tilt_of(-sample.x, -sample.y)
}

fn decide(x: i128, y: i128) -> (t: Tilt)
    requires
        -0x8000_0000_0000_0000 <= x <= 0x8000_0000_0000_0000,
        -0x8000_0000_0000_0000 <= y <= 0x8000_0000_0000_0000,
    ensures
        t == tilt_of(x as int, y as int),
{
    let size_x: i128 = if x < 0 { -x } else { x };
    let size_y: i128 = if y < 0 { -y } else { y };
    let deadzone: i128 = DEADZONE as i128;
    if size_x > size_y {
        if x > deadzone { Tilt::Right } else if x < -deadzone { Tilt::Left } else { Tilt::Level }
    } else {
        if y > deadzone { Tilt::Forward } else if y < -deadzone { Tilt::Backward } else { Tilt::Level }
    }
}

/// The tilt that the board-frame readings `x` and `y` show, in nano-g.
pub fn classify(x: i64, y: i64) -> (t: Tilt)
    ensures
        t == tilt_of(x as int, y as int),
{
    decide(x as i128, y as i128)
}

/// The tilt that a sensor sample shows.
pub fn select(sample: &OrientationSample) -> (t: Tilt)
    ensures
        t == tilt_of_sample(*sample),
{
    decide(-(sample.x as i128), -(sample.y as i128))
}

/// The four animations, each with its own phase.
pub struct Dispatcher {
    pub right: RightTiltAnimation,
    pub left: LeftTiltAnimation,
    pub forward: ForwardTiltAnimation,
    pub backward: BackwardTiltAnimation,
}

/// The frame that `tilt` shows when the animations are in state `d`.
pub open spec fn frame_of(d: Dispatcher, tilt: Tilt) -> Seq<Rgb> {
    match tilt {
        Tilt::Right => bounce_frame(d.right.state().0),
        Tilt::Left => ripple_frame(d.left.table()[d.left.state()]@),
        Tilt::Forward => ring_frame(d.forward.table()[d.forward.state()] as int),
        Tilt::Backward => stripe_frame(d.backward.state()),
        Tilt::Level => blank_frame(),
    }
}

/// `after` is `before` with the animation of `tilt` moved on by one tick
/// and the other three untouched.
pub open spec fn moved_on(before: Dispatcher, after: Dispatcher, tilt: Tilt) -> bool {
    &&& if tilt == Tilt::Right {
        after.right.state() == bounce_step(before.right.state())
    } else {
        after.right == before.right
    }
    &&& if tilt == Tilt::Left {
        after.left.state() == (before.left.state() + 1) % 8 && after.left.table()
            == before.left.table()
    } else {
        after.left == before.left
    }
    &&& if tilt == Tilt::Forward {
        after.forward.state() == (before.forward.state() + 1) % 16 && after.forward.table()
            == before.forward.table()
    } else {
        after.forward == before.forward
    }
    &&& if tilt == Tilt::Backward {
        after.backward.state() == (before.backward.state() + 1) % 256
    } else {
        after.backward == before.backward
    }
}

impl Dispatcher {
    /// All four animations at their start. `heights` and `radii` are the
    /// wave heights of the ripple and the radii of the ring.
    pub fn new(heights: [[i32; 8]; 8], radii: [u16; 16]) -> (d: Self)
        ensures
            d.right.state() == (0int, true),
            d.left.state() == 0,
            d.left.table() == heights,
            d.forward.state() == 0,
            d.forward.table() == radii,
            d.backward.state() == 0,
    {
        Self {
            right: RightTiltAnimation::new(),
            left: LeftTiltAnimation::new(heights),
            forward: ForwardTiltAnimation::new(radii),
            backward: BackwardTiltAnimation::new(),
        }
    }

    /// Draws the current frame of the animation that `tilt` selects, then
    /// moves that animation on by one tick. The others neither draw nor
    /// move; with no tilt the frame is blank and nothing moves.
    pub fn render(&mut self, tilt: Tilt) -> (out: Frame)
        ensures
            out@ == frame_of(*old(self), tilt),
            moved_on(*old(self), *final(self), tilt),
    {
        match tilt {
            Tilt::Right => {
                let pixels = self.right.to_list();
                self.right.next();
                pixels
            },
            Tilt::Left => {
                let pixels = self.left.to_list();
                self.left.next();
                pixels
            },
            Tilt::Forward => {
                let pixels = self.forward.to_list();
                self.forward.next();
                pixels
            },
            Tilt::Backward => {
                let pixels = self.backward.to_list();
                self.backward.next();
                pixels
            },
            Tilt::Level => blank(),
        }
    }

    /// One tick. With a sample, the frame to display: that of the tilt the
    /// sample shows. With a failed read there is no frame, and no animation
    /// moves.
    pub fn tick<E>(&mut self, reading: Result<OrientationSample, E>) -> (out: Option<Frame>)
        ensures
            match reading {
                Ok(sample) => out is Some && out->0@ == frame_of(
                    *old(self),
                    tilt_of_sample(sample),
                ) && moved_on(*old(self), *final(self), tilt_of_sample(sample)),
                Err(_) => out is None && *final(self) == *old(self),
            },
    {
        match reading {
            Ok(sample) => {
                let tilt = select(&sample);
                Some(self.render(tilt))
            },
            Err(_) => None,
        }
    }
}

/// The deadzone is exclusive: while neither reading exceeds 0.2 g in
/// magnitude, nothing is selected.
pub proof fn lemma_deadzone_is_level(x: int, y: int)
    requires
        magnitude(x) <= DEADZONE,
        magnitude(y) <= DEADZONE,
    ensures
        tilt_of(x, y) == Tilt::Level,
{
}

/// Beyond the deadzone the larger axis selects by its sign.
pub proof fn lemma_larger_axis_selects(x: int, y: int)
    ensures
        magnitude(x) > magnitude(y) && x > DEADZONE ==> tilt_of(x, y) == Tilt::Right,
        magnitude(x) > magnitude(y) && x < -DEADZONE ==> tilt_of(x, y) == Tilt::Left,
        magnitude(x) <= magnitude(y) && y > DEADZONE ==> tilt_of(x, y) == Tilt::Forward,
        magnitude(x) <= magnitude(y) && y < -DEADZONE ==> tilt_of(x, y) == Tilt::Backward,
{
}

/// Ties go to y: where x is no larger than y in magnitude, x selects
/// nothing, however far it is tilted.
pub proof fn lemma_ties_go_to_y(x: int, y: int)
    requires
        magnitude(x) <= magnitude(y),
    ensures
        tilt_of(x, y) != Tilt::Right,
        tilt_of(x, y) != Tilt::Left,
{
}

/// The smaller axis is not consulted: where x is larger in magnitude but
/// within the deadzone, nothing is selected.
pub proof fn lemma_smaller_axis_is_ignored(x: int, y: int)
    requires
        magnitude(x) > magnitude(y),
        magnitude(x) <= DEADZONE,
    ensures
        tilt_of(x, y) == Tilt::Level,
{
}

} // verus!
