//! The screen switching of the display task: a newly received screen
//! replaces the active one, otherwise the active screen is redrawn.

use vstd::prelude::*;
use vstd::string::*;

use crate::text::{decimal, push_decimal_u64};

verus! {

/// What the display task does on a frame.
#[derive(Debug, Clone, Copy, PartialEq, Eq, Structural)]
pub enum UiStep {
    /// Leave the previous screen, if there was one, and enter the new one.
    Switch { had_screen: bool },
    /// Redraw the active screen.
    Redraw,
    /// Nothing to show.
    Idle,
}

/// The step that a frame takes, given whether a screen is active and
/// whether a new one was received.
pub open spec fn frame_step(had_screen: bool, received: bool) -> UiStep {
    if received {
        UiStep::Switch { had_screen }
    } else if had_screen {
        UiStep::Redraw
    } else {
        UiStep::Idle
    }
}

/// Takes a frame: a received screen becomes the active one; otherwise the
/// active screen, if any, is redrawn and stays.
pub fn ui_frame<S>(active_screen: &mut Option<S>, received: Option<S>) -> (r: UiStep)
    ensures
        r == frame_step(old(active_screen).is_some(), received.is_some()),
        received.is_some() ==> *final(active_screen) == received,
        received.is_none() ==> *final(active_screen) == *old(active_screen),
{
    match received {
        Some(new_screen) => {
            let had_screen = active_screen.is_some();
            *active_screen = Some(new_screen);
            UiStep::Switch { had_screen }
        },
        None => {
            if active_screen.is_some() {
                UiStep::Redraw
            } else {
                UiStep::Idle
            }
        },
    }
}

/// The welcome screen, which shows a counter.
#[derive(Debug, Clone, Copy, PartialEq, Eq, Structural)]
pub struct WelcomeScreen {
    pub counter: u32,
}

impl WelcomeScreen {
    /// A welcome screen whose counter is zero.
    pub fn new() -> (r: Self)
        ensures
            r.counter == 0,
    {
        WelcomeScreen { counter: 0 }
    }

    /// Adds one to the counter, wrapping at `u32::MAX`.
    pub fn increment(&mut self)
        ensures
            final(self).counter == (old(self).counter + 1) % 0x1_0000_0000,
    {
        self.counter = self.counter.wrapping_add(1);
    }

    /// The counter line of the screen: "Count: " and the counter.
    pub fn count_text(&self) -> (r: String)
        ensures
            r@ == "Count: "@ + decimal(self.counter as nat),
    {
        let mut s = String::from_str("Count: ");
        push_decimal_u64(&mut s, self.counter as u64);
        s
    }
}

/// The frame counter read as a two's-complement signed number.
pub open spec fn signed_frame(frame: u32) -> int {
    if frame < 0x8000_0000 {
        frame as int
    } else {
        frame - 0x1_0000_0000
    }
}

/// The remainder of `a` by a positive `b`, with the sign of `a`.
pub open spec fn truncated_rem(a: int, b: int) -> int {
    if a >= 0 {
        a % b
    } else {
        -((-a) % b)
    }
}

/// The radius of the circle in frame `frame`: 5 to 19, growing every ten
/// frames.
pub open spec fn circle_radius(frame: u32) -> int {
    5 + (frame / 10) % 15
}

/// The centre column of the circle in frame `frame`: it moves two columns a
/// frame within forty columns around the middle.
pub open spec fn circle_x(frame: u32) -> int {
    64 + truncated_rem(signed_frame(frame) * 2, 40) - 20
}

/// The circle of frame `frame`: its bounding square's left column, top row
/// and side.
pub open spec fn circle_of(frame: u32) -> (i32, i32, u32) {
    (
        (circle_x(frame) - circle_radius(frame)) as i32,
        (32 - circle_radius(frame)) as i32,
        (circle_radius(frame) * 2) as u32,
    )
}

/// The animation screen: a circle that moves and breathes, and the frame
/// counter.
#[derive(Debug, Clone, Copy, PartialEq, Eq, Structural)]
pub struct AnimationScreen {
    pub frame: u32,
}

impl AnimationScreen {
    /// The animation before its first frame.
    pub fn new() -> (r: Self)
        ensures
            r.frame == 0,
    {
        AnimationScreen { frame: 0 }
    }

    /// Advances to the next frame, wrapping, and gives its circle; the
    /// doubled signed frame number must fit in 32 bits.
    pub fn next_frame(&mut self) -> (r: (i32, i32, u32))
        requires
            -0x4000_0000 <= signed_frame(((old(self).frame + 1) % 0x1_0000_0000) as u32) < 0x4000_0000,
        ensures
            final(self).frame == (old(self).frame + 1) % 0x1_0000_0000,
            r == circle_of(final(self).frame),
    {
        self.frame = self.frame.wrapping_add(1);
        let frame = self.frame;
        let radius: u32 = 5 + (frame / 10) % 15;
        let signed: i64 = if frame < 0x8000_0000 {
            frame as i64
        } else {
            frame as i64 - 0x1_0000_0000
        };
        let doubled: i64 = signed * 2;
        let rem: i64 = if doubled >= 0 {
            doubled % 40
        } else {
            -((-doubled) % 40)
        };
        let x: i64 = 64 + rem - 20;
        ((x - radius as i64) as i32, 32 - radius as i32, radius * 2)
    }

    /// The counter line: "Frame: " and the frame number.
    pub fn frame_text(&self) -> (r: String)
        ensures
            r@ == "Frame: "@ + decimal(self.frame as nat),
    {
        let mut s = String::from_str("Frame: ");
        push_decimal_u64(&mut s, self.frame as u64);
        s
    }
}

} // verus!
