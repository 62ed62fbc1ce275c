//! What a surface remembers of a source between frames, and the pointer
//! events that it hands to its GUI.

use vstd::prelude::*;
use crate::source::ScrollDelta;
use crate::surface::Pos2;

verus! {

/// The state of one source on one surface in one frame.
#[derive(Clone, Copy, Debug, PartialEq, Eq, Structural)]
pub struct InputState {
    pub clicked: bool,
    /// How many lines to scroll.
    pub discrete_scroll: ScrollDelta,
    /// How many pixels to scroll.
    pub continuous_scroll: ScrollDelta,
}

/// The unit of a scroll amount.
#[derive(Clone, Copy, Debug, PartialEq, Eq, Structural)]
pub enum ScrollUnit {
    Line,
    Point,
}

/// A pointer event for the GUI of a surface. Scroll amounts are in
/// thousandths of their unit.
#[derive(Clone, Copy, Debug, PartialEq, Eq, Structural)]
pub enum PointerEvent {
    PointerMoved(Pos2),
    /// The primary button went down or up at `pos`.
    PointerButton { pos: Pos2, pressed: bool },
    MouseWheel { unit: ScrollUnit, delta_x: i128, delta_y: i128 },
    /// No source drives the surface any more.
    PointerGone,
}

impl InputState {
    /// The state of a source that was not seen before: nothing held, no
    /// scroll.
    pub open spec fn idle() -> InputState {
        InputState {
            clicked: false,
            discrete_scroll: ScrollDelta { x: 0, y: 0 },
            continuous_scroll: ScrollDelta { x: 0, y: 0 },
        }
    }
}

impl Default for InputState {
    fn default() -> (state: InputState)
        ensures
            state == InputState::idle(),
    {
        InputState {
            clicked: false,
            discrete_scroll: ScrollDelta { x: 0, y: 0 },
            continuous_scroll: ScrollDelta { x: 0, y: 0 },
        }
    }
}

/// Where a forced release is reported: the source is gone, so the place
/// means nothing.
pub open spec fn release_origin() -> Pos2 {
    Pos2 { x: 0, y: 0 }
}

/// The release that is made up for a source that left with the button down.
pub open spec fn forced_release() -> PointerEvent {
    PointerEvent::PointerButton { pos: release_origin(), pressed: false }
}

/// The button event, if any, between the last frame and this one: a press
/// when the button went down, a release when it went up, nothing while it
/// stayed as it was.
pub open spec fn button_events(pos: Pos2, was_clicked: bool, clicked: bool) -> Seq<PointerEvent> {
    if clicked && !was_clicked {
        seq![PointerEvent::PointerButton { pos, pressed: true }]
    } else if !clicked && was_clicked {
        seq![PointerEvent::PointerButton { pos, pressed: false }]
    } else {
        Seq::empty()
    }
}

/// The scroll event, if any, for the scroll of all sources together: none
/// when it is zero on both axes.
pub open spec fn scroll_events(unit: ScrollUnit, delta_x: int, delta_y: int) -> Seq<
    PointerEvent,
> {
    if delta_x == 0 && delta_y == 0 {
        Seq::empty()
    } else {
        seq![PointerEvent::MouseWheel { unit, delta_x: delta_x as i128, delta_y: delta_y as i128 }]
    }
}

} // verus!
