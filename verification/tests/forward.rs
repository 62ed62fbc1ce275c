use bevy_spatial_egui::forward::{forward_egui_events, forwards, EventKind};

#[test]
fn keyboard_text_and_clipboard_are_forwarded() {
    for kind in [EventKind::Copy, EventKind::Cut, EventKind::Paste, EventKind::Text, EventKind::Key] {
        assert!(forwards(kind));
    }
    for kind in [
        EventKind::PointerMoved,
        EventKind::MouseMoved,
        EventKind::PointerButton,
        EventKind::PointerGone,
        EventKind::Zoom,
        EventKind::Ime,
        EventKind::Touch,
        EventKind::MouseWheel,
        EventKind::WindowFocused,
        EventKind::AccessKitActionRequest,
        EventKind::Screenshot,
        EventKind::Other,
    ] {
        assert!(!forwards(kind));
    }
}

#[test]
fn forwarded_events_keep_their_order() {
    let kinds = vec![
        EventKind::PointerMoved,
        EventKind::Key,
        EventKind::Text,
        EventKind::MouseWheel,
        EventKind::Key,
        EventKind::PointerGone,
        EventKind::Copy,
        EventKind::Cut,
        EventKind::Zoom,
        EventKind::Paste,
    ];
    assert_eq!(forward_egui_events(Some(&kinds)), vec![1, 2, 4, 6, 7, 9]);
    assert_eq!(forward_egui_events(Some(&vec![EventKind::PointerMoved])), Vec::<usize>::new());
    assert_eq!(forward_egui_events(Some(&vec![])), Vec::<usize>::new());
}

#[test]
fn nothing_is_forwarded_without_a_primary_window() {
    assert_eq!(forward_egui_events(None), Vec::<usize>::new());
}
