//! Which events of the primary window are handed on to every panel.
//!
//! Keyboard, text and clipboard events are not made here: they pass through
//! from the primary window, and nothing else of it does.

use vstd::prelude::*;

verus! {

/// The kinds of event that a window can hold.
#[derive(Clone, Copy, Debug, PartialEq, Eq, Structural)]
pub enum EventKind {
    Copy,
    Cut,
    Paste,
    Text,
    Key,
    PointerMoved,
    MouseMoved,
    PointerButton,
    PointerGone,
    Zoom,
    Ime,
    Touch,
    MouseWheel,
    WindowFocused,
    AccessKitActionRequest,
    Screenshot,
    /// Any kind that is not listed above.
    Other,
}

/// Whether a kind of event is handed on: copy, cut, paste, text and key are.
pub open spec fn is_forwarded(kind: EventKind) -> bool {
    kind is Copy || kind is Cut || kind is Paste || kind is Text || kind is Key
}

/// Tells whether a kind of event is handed on.
pub fn forwards(kind: EventKind) -> (forwarded: bool)
    ensures
        forwarded == is_forwarded(kind),
{
    match kind {
        EventKind::Copy => true,
        EventKind::Cut => true,
        EventKind::Paste => true,
        EventKind::Text => true,
        EventKind::Key => true,
        _ => false,
    }
}

/// Picks the events of the primary window that are handed on to the panels.
///
/// `primary` holds the kinds of the events of the primary window in order, or
/// is `None` where no one primary window was found: then nothing is handed
/// on. What comes back are the places in `primary` of the events to hand on,
/// in rising order: each event of a forwarded kind, and no other.
pub fn forward_egui_events(primary: Option<&Vec<EventKind>>) -> (picked: Vec<usize>)
    ensures
        primary is None ==> picked.len() == 0,
        primary matches Some(kinds) ==> {
            &&& forall|i: int|
                0 <= i < picked.len() ==> (#[trigger] picked[i]) < kinds.len() && is_forwarded(
                    kinds[picked[i] as int],
                )
            &&& forall|i: int, j: int|
                0 <= i < j < picked.len() ==> (#[trigger] picked[i]) < (#[trigger] picked[j])
            &&& forall|k: usize|
                k < kinds.len() && is_forwarded(kinds[k as int]) ==> #[trigger] picked@.contains(k)
        },
{
    let mut picked: Vec<usize> = Vec::new();
    let kinds: &Vec<EventKind> = match primary {
        Some(kinds) => kinds,
        None => {
            return picked;
        },
    };
    let mut at: usize = 0;
    while at < kinds.len()
        invariant
            at <= kinds.len(),
            forall|i: int|
                0 <= i < picked.len() ==> (#[trigger] picked[i]) < at && is_forwarded(
                    kinds[picked[i] as int],
                ),
            forall|i: int, j: int|
                0 <= i < j < picked.len() ==> (#[trigger] picked[i]) < (#[trigger] picked[j]),
            forall|k: usize|
                k < at && is_forwarded(kinds[k as int]) ==> #[trigger] picked@.contains(k),
        decreases kinds.len() - at,
    {
        if forwards(kinds[at]) {
            let ghost before = picked@;
            picked.push(at);
            assert(picked@[picked.len() - 1] == at);
            assert forall|k: usize|
                k < at + 1 && is_forwarded(kinds[k as int]) implies #[trigger] picked@.contains(
                k,
            ) by {
                if k < at {
                    assert(before.contains(k));
                    let i = choose|i: int| 0 <= i < before.len() && before[i] == k;
                    assert(picked@[i] == k);
                } else {
                    assert(picked@[picked.len() - 1] == k);
                }
            }
        }
        at = at + 1;
    }
    picked
}

} // verus!
