//! What the viewer does in one frame: it switches between browsing the images
//! and drawing, steps through the images, and says what is to be shown.

use crate::input::{Control, InputHandler, InputState};
use vstd::prelude::*;

verus! {

/// What a frame shows.
#[derive(Clone, Copy, Debug, PartialEq, Eq, Structural)]
pub enum Shown {
    /// The user's drawing.
    Drawing,
    /// The image with this number.
    Image(u32),
}

/// What the caller has to do for a frame, in this order: restart the cooldown,
/// clear the drawing, apply a stroke, show.
#[derive(Clone, Copy, Debug, PartialEq, Eq, Structural)]
pub struct FramePlan {
    pub restart_cooldown: bool,
    pub clear_drawing: bool,
    pub stroke: bool,
    pub shown: Shown,
}

/// The viewer's state between frames.
#[derive(Clone, Copy, Debug, PartialEq, Eq, Structural)]
pub struct Viewer {
    /// Whether the user draws; otherwise the images are browsed.
    pub drawing_mode: bool,
    /// The number of the image that is browsed.
    pub cnt: u32,
}

impl Viewer {
    /// Whether this frame switches between drawing and browsing.
    pub open spec fn switches(inputs: InputState, cooled: bool) -> bool {
        cooled && inputs.pressed.contains(Control::Down)
    }

    /// Whether the frame draws, after a possible switch.
    pub open spec fn draws(self, inputs: InputState, cooled: bool) -> bool {
        self.drawing_mode != Self::switches(inputs, cooled)
    }

    /// Whether a key may still act in this frame once the switch is done: the
    /// cooldown has run out and the switch has not restarted it.
    pub open spec fn still_cooled(inputs: InputState, cooled: bool) -> bool {
        cooled && !Self::switches(inputs, cooled)
    }

    /// Whether this frame steps back to the image before.
    pub open spec fn steps_back(self, inputs: InputState, cooled: bool) -> bool {
        &&& !self.draws(inputs, cooled)
        &&& Self::still_cooled(inputs, cooled)
        &&& inputs.pressed.contains(Control::Left)
        &&& self.cnt > 0
    }

    /// Whether this frame steps on to the next image. Stepping back goes
    /// first.
    pub open spec fn steps_on(self, inputs: InputState, cooled: bool, amount: u32) -> bool {
        &&& !self.draws(inputs, cooled)
        &&& Self::still_cooled(inputs, cooled)
        &&& !self.steps_back(inputs, cooled)
        &&& inputs.pressed.contains(Control::Right)
        &&& self.cnt < amount
    }

    /// The state after a frame.
    pub open spec fn next(self, inputs: InputState, cooled: bool, amount: u32) -> Viewer {
        Viewer {
            drawing_mode: self.draws(inputs, cooled),
            cnt: if self.steps_back(inputs, cooled) {
                (self.cnt - 1) as u32
            } else if self.steps_on(inputs, cooled, amount) {
                (self.cnt + 1) as u32
            } else {
                self.cnt
            },
        }
    }

    /// What the caller has to do for a frame. The frame shows the image that
    /// was browsed when it began.
    pub open spec fn plan(self, inputs: InputState, cooled: bool, amount: u32) -> FramePlan {
        FramePlan {
            restart_cooldown: Self::switches(inputs, cooled) || self.steps_back(inputs, cooled)
                || self.steps_on(inputs, cooled, amount),
            clear_drawing: Self::still_cooled(inputs, cooled) && inputs.pressed.contains(
                Control::Color,
            ),
            stroke: self.draws(inputs, cooled),
            shown: if self.draws(inputs, cooled) {
                Shown::Drawing
            } else {
                Shown::Image(self.cnt)
            },
        }
    }

    /// Browsing, at the first image.
    pub fn new() -> (viewer: Viewer)
        ensures
            viewer == (Viewer { drawing_mode: false, cnt: 0 }),
    {
        Viewer { drawing_mode: false, cnt: 0 }
    }

    /// Decides one frame from the keys that are held, from whether the
    /// cooldown has run out (`cooled`) and from the number of images.
    pub fn frame(&mut self, inputs: &InputHandler, cooled: bool, amount: u32) -> (plan: FramePlan)
        ensures
            *final(self) == old(self).next(inputs@, cooled, amount),
            plan == old(self).plan(inputs@, cooled, amount),
    {
        let mut cooled = cooled;
        let mut restart_cooldown = false;
        if inputs.pressed(Control::Down) && cooled {
            self.drawing_mode = !self.drawing_mode;
            restart_cooldown = true;
            cooled = false;
        }
        let clear_drawing = inputs.pressed(Control::Color) && cooled;
        let shown = if self.drawing_mode {
            Shown::Drawing
        } else {
            Shown::Image(self.cnt)
        };
        if !self.drawing_mode && cooled {
            if inputs.pressed(Control::Left) && self.cnt > 0 {
                self.cnt -= 1;
                restart_cooldown = true;
            } else if inputs.pressed(Control::Right) && self.cnt < amount {
                self.cnt += 1;
                restart_cooldown = true;
            }
        }
        FramePlan { restart_cooldown, clear_drawing, stroke: self.drawing_mode, shown }
    }
}

/// While the cooldown runs, held keys change nothing.
pub proof fn lemma_cooldown_holds_the_state(
    viewer: Viewer,
    inputs: InputState,
    amount: u32,
)
    ensures
        viewer.next(inputs, false, amount) == viewer,
        !viewer.plan(inputs, false, amount).restart_cooldown,
        !viewer.plan(inputs, false, amount).clear_drawing,
{
}

/// Browsing never leaves the range from the first image to `amount`, and
/// moves by one image at most.
pub proof fn lemma_browsing_stays_in_range(
    viewer: Viewer,
    inputs: InputState,
    cooled: bool,
    amount: u32,
)
    requires
        viewer.cnt <= amount,
    ensures
        viewer.next(inputs, cooled, amount).cnt <= amount,
        viewer.cnt - 1 <= viewer.next(inputs, cooled, amount).cnt <= viewer.cnt + 1,
        viewer.next(inputs, cooled, amount).cnt != viewer.cnt ==> viewer.plan(
            inputs,
            cooled,
            amount,
        ).restart_cooldown && !viewer.next(inputs, cooled, amount).drawing_mode,
{
}

} // verus!
