//! Input sources and the raw signals that each kind of source carries.
//!
//! Scroll amounts and stick deflections are whole thousandths; lengths are
//! whole nanometres.

use vstd::prelude::*;
use crate::geometry::{measure, span_of, Point3, Span};

verus! {

/// A scroll amount on two axes, in thousandths of a line or of a pixel.
#[derive(Clone, Copy, Debug, PartialEq, Eq, Structural)]
pub struct ScrollDelta {
    pub x: i64,
    pub y: i64,
}

/// What a mouse reports in one frame.
#[derive(Clone, Copy, Debug, PartialEq, Eq, Structural)]
pub struct MouseSignals {
    pub left_pressed: bool,
    pub right_pressed: bool,
    pub middle_pressed: bool,
    /// Scroll in lines.
    pub discrete_scroll: ScrollDelta,
    /// Scroll in pixels.
    pub continuous_scroll: ScrollDelta,
}

/// The tip of one finger: where it is, and how thick it is.
#[derive(Clone, Copy, Debug, PartialEq, Eq, Structural)]
pub struct Fingertip {
    pub position: Point3,
    /// In nanometres.
    pub radius: u32,
}

/// What a tracked hand reports in one frame.
#[derive(Clone, Copy, Debug, PartialEq, Eq, Structural)]
pub struct HandSignals {
    pub index_tip: Fingertip,
    pub thumb_tip: Fingertip,
}

/// What a tracked controller reports in one frame.
#[derive(Clone, Copy, Debug, PartialEq, Eq, Structural)]
pub struct ControllerSignals {
    pub trigger_pulled: bool,
    pub squeezed: bool,
    /// Stick deflection, in thousandths of full deflection.
    pub stick_x: i32,
    pub stick_y: i32,
}

/// The raw signals of a source, by its kind.
#[derive(Clone, Copy, Debug, PartialEq, Eq, Structural)]
pub enum Signals {
    Mouse(MouseSignals),
    Hand(HandSignals),
    Controller(ControllerSignals),
    /// A generic pointer: it carries no signal of its own.
    Pointer,
}

/// One input source in one frame.
#[derive(Clone, Copy, Debug, PartialEq, Eq, Structural)]
pub struct InputSource {
    /// Set for a source that is mapped onto the surface by itself, such as a
    /// pointer on a 2D screen. Such a source passes no proximity test.
    pub is_pointer: bool,
    pub signals: Signals,
}

/// Which way the gap between index and thumb is held against their reach.
#[derive(Clone, Copy, Debug, PartialEq, Eq, Structural)]
pub enum PinchPolicy {
    /// Pinched while the tips are nearer than their reach: the pinch closes
    /// the gap.
    GapBelowReach,
    /// Pinched while the tips are farther apart than their reach.
    GapAboveReach,
}

/// The margin added to the two radii of a pinch, in nanometres.
pub const PINCH_MARGIN: u64 = 2_000_000;

/// The stick deflection beyond which a controller shows intent, in
/// thousandths.
pub const STICK_DEADZONE: i32 = 100;

impl ScrollDelta {
    /// No scroll on either axis.
    pub open spec fn is_zero(self) -> bool {
        self.x == 0 && self.y == 0
    }

    /// The scroll of a source that does not scroll.
    pub open spec fn zero() -> ScrollDelta {
        ScrollDelta { x: 0, y: 0 }
    }

    /// Tells whether there is scroll on either axis.
    pub fn nonzero(&self) -> (moved: bool)
        ensures
            moved == !self.is_zero(),
    {
        self.x != 0 || self.y != 0
    }
}

impl HandSignals {
    /// The distance below which the two tips touch: both radii and the margin.
    pub open spec fn reach(self) -> int {
        PINCH_MARGIN + self.index_tip.radius + self.thumb_tip.radius
    }

    /// Whether the hand pinches under `policy`.
    pub open spec fn pinches(self, policy: PinchPolicy) -> bool {
        let span = span_of(self.index_tip.position, self.thumb_tip.position, self.reach());
        match policy {
            PinchPolicy::GapBelowReach => span == Span::Shorter,
            PinchPolicy::GapAboveReach => span == Span::Longer,
        }
    }

    /// Tells whether the hand pinches under `policy`.
    pub fn pinched(&self, policy: PinchPolicy) -> (pinch: bool)
        ensures
            pinch == self.pinches(policy),
    {
        let reach: u64 = PINCH_MARGIN + self.index_tip.radius as u64 + self.thumb_tip.radius as u64;
        let span = measure(self.index_tip.position, self.thumb_tip.position, reach);
        match policy {
            PinchPolicy::GapBelowReach => span == Span::Shorter,
            PinchPolicy::GapAboveReach => span == Span::Longer,
        }
    }
}

impl ControllerSignals {
    /// Whether the stick is pushed or pulled beyond the deadzone.
    pub open spec fn stick_deflected(self) -> bool {
        self.stick_y > STICK_DEADZONE || self.stick_y < -STICK_DEADZONE
    }
}

impl MouseSignals {
    /// Whether any button is down.
    pub open spec fn any_button(self) -> bool {
        self.left_pressed || self.right_pressed || self.middle_pressed
    }
}

impl InputSource {
    /// Whether the source's own signals show that it means to use a surface
    /// near it.
    pub open spec fn shows_intent(self, pinch: PinchPolicy) -> bool {
        match self.signals {
            Signals::Mouse(mouse) => mouse.any_button() || !mouse.discrete_scroll.is_zero()
                || !mouse.continuous_scroll.is_zero(),
            Signals::Hand(hand) => hand.pinches(pinch),
            Signals::Controller(controller) => controller.trigger_pulled || controller.squeezed
                || controller.stick_deflected(),
            Signals::Pointer => false,
        }
    }

    /// Whether the source's own signals hold the primary button down.
    pub open spec fn presses(self, pinch: PinchPolicy) -> bool {
        match self.signals {
            Signals::Mouse(mouse) => mouse.left_pressed,
            Signals::Hand(hand) => hand.pinches(pinch),
            Signals::Controller(controller) => controller.trigger_pulled,
            Signals::Pointer => false,
        }
    }

    /// The scroll in lines that the source adds in this frame.
    pub open spec fn discrete_scroll(self) -> ScrollDelta {
        match self.signals {
            Signals::Mouse(mouse) => mouse.discrete_scroll,
            _ => ScrollDelta::zero(),
        }
    }

    /// The scroll in pixels that the source adds in this frame.
    pub open spec fn continuous_scroll(self) -> ScrollDelta {
        match self.signals {
            Signals::Mouse(mouse) => mouse.continuous_scroll,
            _ => ScrollDelta::zero(),
        }
    }

    /// Tells whether the source's own signals show intent.
    pub fn intends(&self, pinch: PinchPolicy) -> (intent: bool)
        ensures
            intent == self.shows_intent(pinch),
    {
        match &self.signals {
            Signals::Mouse(mouse) => mouse.left_pressed || mouse.right_pressed
                || mouse.middle_pressed || mouse.discrete_scroll.nonzero()
                || mouse.continuous_scroll.nonzero(),
            Signals::Hand(hand) => hand.pinched(pinch),
            Signals::Controller(controller) => controller.trigger_pulled || controller.squeezed
                || controller.stick_y > STICK_DEADZONE || controller.stick_y < -STICK_DEADZONE,
            Signals::Pointer => false,
        }
    }

    /// Tells whether the source's own signals hold the primary button down.
    pub fn pressing(&self, pinch: PinchPolicy) -> (down: bool)
        ensures
            down == self.presses(pinch),
    {
        match &self.signals {
            Signals::Mouse(mouse) => mouse.left_pressed,
            Signals::Hand(hand) => hand.pinched(pinch),
            Signals::Controller(controller) => controller.trigger_pulled,
            Signals::Pointer => false,
        }
    }
}

} // verus!
