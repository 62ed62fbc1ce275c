//! The capture arbiter: whether a source drives a surface in this frame.

use vstd::prelude::*;
use crate::geometry::{measure, span_of, Point3, Span};
use crate::source::{InputSource, PinchPolicy};

verus! {

/// The distance up to which a source touches the surface, in nanometres.
pub const TOUCH_TOLERANCE: u64 = 119;

/// The distance beyond which a source never drives the surface, in
/// nanometres.
pub const MAX_CLOSE_RANGE_INTERACTION_DISTANCE: u64 = 150_000_000;

/// How a pinch is read, and whether capture sticks.
#[derive(Clone, Copy, Debug, PartialEq, Eq, Structural)]
pub struct Policy {
    /// How a pinch is read when capture is decided.
    pub capture_pinch: PinchPolicy,
    /// How a pinch is read when a click is decided.
    pub click_pinch: PinchPolicy,
    /// Whether a source that drove the surface in the last frame keeps it
    /// while it stays in close range.
    pub hysteresis: bool,
}

/// How near a source is to its point of contact with the surface.
#[derive(Clone, Copy, Debug, PartialEq, Eq, Structural)]
pub enum Proximity {
    /// Within the touch tolerance.
    Touching,
    /// Beyond touch, within the close range.
    CloseRange,
    /// Beyond the close range.
    OutOfRange,
}

/// One source offered to one surface: the point of the surface nearest to the
/// source, and where the source is, both in the surface's space.
#[derive(Clone, Copy, Debug, PartialEq, Eq, Structural)]
pub struct CaptureContext {
    pub closest_point: Point3,
    pub input_method_position: Point3,
}

/// How near `position` is to `contact`.
pub open spec fn proximity_of(contact: Point3, position: Point3) -> Proximity {
    if span_of(contact, position, TOUCH_TOLERANCE as int) != Span::Longer {
        Proximity::Touching
    } else if span_of(contact, position, MAX_CLOSE_RANGE_INTERACTION_DISTANCE as int)
        == Span::Longer {
        Proximity::OutOfRange
    } else {
        Proximity::CloseRange
    }
}

/// Whether a source drives the surface.
///
/// A source without signals never does. A pointer always does. Any other
/// source does when it touches, does not when it is out of range, and in
/// between does when its signals show intent, or, under hysteresis, when it
/// drove the surface in the last frame.
pub open spec fn capture_decision(
    policy: Policy,
    ctx: CaptureContext,
    source: Option<InputSource>,
    was_captured: bool,
) -> bool {
    match source {
        None => false,
        Some(source) => source.is_pointer || match proximity_of(
            ctx.closest_point,
            ctx.input_method_position,
        ) {
            Proximity::Touching => true,
            Proximity::OutOfRange => false,
            Proximity::CloseRange => {
                source.shows_intent(policy.capture_pinch) || (policy.hysteresis && was_captured)
            },
        },
    }
}

impl Policy {
    /// The policy without hysteresis, under which a pinch captures while the
    /// tips are nearer than their reach and clicks while they are farther
    /// apart.
    pub fn new() -> (policy: Policy)
        ensures
            policy == (Policy {
                capture_pinch: PinchPolicy::GapBelowReach,
                click_pinch: PinchPolicy::GapAboveReach,
                hysteresis: false,
            }),
    {
        Policy {
            capture_pinch: PinchPolicy::GapBelowReach,
            click_pinch: PinchPolicy::GapAboveReach,
            hysteresis: false,
        }
    }
}

/// Tells how near `position` is to `contact`.
pub fn proximity(contact: Point3, position: Point3) -> (near: Proximity)
    ensures
        near == proximity_of(contact, position),
{
    match measure(contact, position, TOUCH_TOLERANCE) {
        Span::Longer => match measure(contact, position, MAX_CLOSE_RANGE_INTERACTION_DISTANCE) {
            Span::Longer => Proximity::OutOfRange,
            _ => Proximity::CloseRange,
        },
        _ => Proximity::Touching,
    }
}

/// Decides whether a source drives the surface in this frame.
///
/// `source` is `None` for a source of which no signals are known;
/// `was_captured` tells whether the source drove the surface in the last
/// frame.
pub fn input_surface_capture_condition(
    policy: &Policy,
    ctx: &CaptureContext,
    source: Option<&InputSource>,
    was_captured: bool,
) -> (capture: bool)
    ensures
        capture == capture_decision(
            *policy,
            *ctx,
            match source {
                Some(source) => Some(*source),
                None => None,
            },
            was_captured,
        ),
{
    match source {
        None => false,
        Some(source) => {
            if source.is_pointer {
                return true;
            }
            match proximity(ctx.closest_point, ctx.input_method_position) {
                Proximity::Touching => true,
                Proximity::OutOfRange => false,
                Proximity::CloseRange => {
                    source.intends(policy.capture_pinch) || (policy.hysteresis && was_captured)
                },
            }
        },
    }
}

/// A source that drove the surface and is still in close range is let go only
/// when its intent has cleared, and under hysteresis not even then.
pub proof fn lemma_capture_is_sticky(
    policy: Policy,
    ctx: CaptureContext,
    source: InputSource,
    was_captured: bool,
)
    requires
        was_captured,
        proximity_of(ctx.closest_point, ctx.input_method_position) == Proximity::CloseRange,
    ensures
        !capture_decision(policy, ctx, Some(source), was_captured) ==> !source.shows_intent(
            policy.capture_pinch,
        ),
        policy.hysteresis ==> capture_decision(policy, ctx, Some(source), was_captured),
{
}

} // verus!
