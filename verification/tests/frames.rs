use bevy_spatial_egui::capture::Policy;
use bevy_spatial_egui::events::{InputState, PointerEvent, ScrollUnit};
use bevy_spatial_egui::geometry::Point3;
use bevy_spatial_egui::source::{
    ControllerSignals, Fingertip, HandSignals, InputSource, MouseSignals, PinchPolicy,
    ScrollDelta, Signals,
};
use bevy_spatial_egui::surface::{
    Pos2, Resolution, SpatialEguiWindowPhysicalSize, WindowGeometry,
};
use bevy_spatial_egui::table::StateTable;
use bevy_spatial_egui::window::{
    reconcile_releases, synthesize_events, update_window, MethodContext,
};

const METRE: i64 = 1_000_000_000;

fn panel() -> WindowGeometry {
    WindowGeometry::new(
        SpatialEguiWindowPhysicalSize {
            width: 1_000_000_000,
            height: 1_000_000_000,
            depth: 50_000_000,
        },
        Resolution { x: 512, y: 512 },
        1000,
    )
    .unwrap()
}

fn no_scroll() -> ScrollDelta {
    ScrollDelta { x: 0, y: 0 }
}

fn mouse_scrolling(left: bool, lines: ScrollDelta, pixels: ScrollDelta) -> InputSource {
    InputSource {
        is_pointer: true,
        signals: Signals::Mouse(MouseSignals {
            left_pressed: left,
            right_pressed: false,
            middle_pressed: false,
            discrete_scroll: lines,
            continuous_scroll: pixels,
        }),
    }
}

fn mouse(left: bool) -> InputSource {
    mouse_scrolling(left, no_scroll(), no_scroll())
}

fn controller(trigger: bool) -> InputSource {
    InputSource {
        is_pointer: false,
        signals: Signals::Controller(ControllerSignals {
            trigger_pulled: trigger,
            squeezed: false,
            stick_x: 0,
            stick_y: 0,
        }),
    }
}

fn hand(gap: i64) -> InputSource {
    InputSource {
        is_pointer: false,
        signals: Signals::Hand(HandSignals {
            index_tip: Fingertip { position: Point3 { x: 0, y: 0, z: 0 }, radius: 8_000_000 },
            thumb_tip: Fingertip { position: Point3 { x: gap, y: 0, z: 0 }, radius: 10_000_000 },
        }),
    }
}

fn at_center(id: u64, source: InputSource) -> MethodContext {
    MethodContext {
        input_method: id,
        closest_point: Point3 { x: 0, y: 0, z: 0 },
        input_method_position: Point3 { x: 0, y: 0, z: METRE / 10 },
        source: Some(source),
    }
}

fn middle() -> Pos2 {
    Pos2 { x: 256_000, y: 256_000 }
}

fn moved() -> PointerEvent {
    PointerEvent::PointerMoved(middle())
}

fn press() -> PointerEvent {
    PointerEvent::PointerButton { pos: middle(), pressed: true }
}

fn release() -> PointerEvent {
    PointerEvent::PointerButton { pos: middle(), pressed: false }
}

fn forced() -> PointerEvent {
    PointerEvent::PointerButton { pos: Pos2 { x: 0, y: 0 }, pressed: false }
}

fn run(table: &mut StateTable, methods: Vec<MethodContext>) -> Vec<PointerEvent> {
    update_window(&Policy::new(), &panel(), table, &methods)
}

#[test]
fn mouse_click_at_center_over_three_frames() {
    let mut table = StateTable::new();
    assert_eq!(run(&mut table, vec![at_center(1, mouse(false))]), vec![moved()]);
    assert_eq!(run(&mut table, vec![at_center(1, mouse(true))]), vec![moved(), press()]);
    assert_eq!(table.state_of(1).map(|state: InputState| state.clicked), Some(true));
    assert_eq!(run(&mut table, vec![at_center(1, mouse(false))]), vec![moved(), release()]);
}

#[test]
fn held_button_gives_one_press_and_one_release() {
    let mut table = StateTable::new();
    assert_eq!(run(&mut table, vec![at_center(7, controller(false))]), vec![moved()]);
    assert_eq!(run(&mut table, vec![at_center(7, controller(true))]), vec![moved(), press()]);
    assert_eq!(run(&mut table, vec![at_center(7, controller(true))]), vec![moved()]);
    assert_eq!(run(&mut table, vec![at_center(7, controller(false))]), vec![moved(), release()]);
    assert_eq!(run(&mut table, vec![at_center(7, controller(false))]), vec![moved()]);
}

#[test]
fn new_source_with_button_down_presses_at_once() {
    let mut table = StateTable::new();
    assert_eq!(run(&mut table, vec![at_center(7, controller(true))]), vec![moved(), press()]);
}

#[test]
fn source_that_leaves_is_released_once() {
    let mut table = StateTable::new();
    run(&mut table, vec![at_center(3, controller(true))]);
    assert!(table.contains(3));
    assert_eq!(run(&mut table, vec![]), vec![PointerEvent::PointerGone, forced()]);
    assert!(!table.contains(3));
    assert_eq!(table.state_of(3), None);
    assert_eq!(run(&mut table, vec![]), vec![PointerEvent::PointerGone]);
}

#[test]
fn source_held_for_many_frames_is_released_once() {
    let mut table = StateTable::new();
    for _ in 0..10 {
        run(&mut table, vec![at_center(3, controller(true))]);
    }
    assert_eq!(run(&mut table, vec![]), vec![PointerEvent::PointerGone, forced()]);
    assert_eq!(run(&mut table, vec![]), vec![PointerEvent::PointerGone]);
}

#[test]
fn source_that_leaves_while_another_stays_is_released_after_the_others_events() {
    let mut table = StateTable::new();
    run(&mut table, vec![at_center(3, controller(true)), at_center(4, controller(false))]);
    assert_eq!(run(&mut table, vec![at_center(4, controller(false))]), vec![moved(), forced()]);
    assert!(!table.contains(3));
    assert!(table.contains(4));
}

#[test]
fn source_that_leaves_with_button_up_is_not_released() {
    let mut table = StateTable::new();
    run(&mut table, vec![at_center(3, controller(false))]);
    assert_eq!(run(&mut table, vec![]), vec![PointerEvent::PointerGone]);
    assert!(!table.contains(3));
}

#[test]
fn each_source_that_leaves_held_is_released() {
    let mut table = StateTable::new();
    run(
        &mut table,
        vec![
            at_center(1, controller(true)),
            at_center(2, controller(false)),
            at_center(3, controller(true)),
            at_center(4, controller(true)),
        ],
    );
    assert_eq!(
        run(&mut table, vec![]),
        vec![PointerEvent::PointerGone, forced(), forced(), forced()]
    );
}

#[test]
fn empty_capture_set_gives_pointer_gone_only() {
    let mut table = StateTable::new();
    assert_eq!(run(&mut table, vec![]), vec![PointerEvent::PointerGone]);
    assert!(!table.contains(0));
}

#[test]
fn two_sources_scroll_adds_up() {
    let mut table = StateTable::new();
    let one = mouse_scrolling(false, ScrollDelta { x: 1000, y: 0 }, no_scroll());
    let other = mouse_scrolling(false, ScrollDelta { x: 0, y: 1000 }, no_scroll());
    assert_eq!(
        run(&mut table, vec![at_center(1, one), at_center(2, other)]),
        vec![
            moved(),
            moved(),
            PointerEvent::MouseWheel { unit: ScrollUnit::Line, delta_x: 1000, delta_y: 1000 },
        ]
    );
}

#[test]
fn scroll_in_lines_and_in_pixels_are_two_events() {
    let mut table = StateTable::new();
    let source = mouse_scrolling(false, ScrollDelta { x: 0, y: -2000 }, ScrollDelta { x: 12_500, y: 0 });
    assert_eq!(
        run(&mut table, vec![at_center(1, source)]),
        vec![
            moved(),
            PointerEvent::MouseWheel { unit: ScrollUnit::Line, delta_x: 0, delta_y: -2000 },
            PointerEvent::MouseWheel { unit: ScrollUnit::Point, delta_x: 12_500, delta_y: 0 },
        ]
    );
}

#[test]
fn scroll_is_reported_in_every_frame_that_has_it() {
    let mut table = StateTable::new();
    let source = mouse_scrolling(false, ScrollDelta { x: 0, y: 1000 }, no_scroll());
    let wheel = PointerEvent::MouseWheel { unit: ScrollUnit::Line, delta_x: 0, delta_y: 1000 };
    assert_eq!(run(&mut table, vec![at_center(1, source)]), vec![moved(), wheel]);
    assert_eq!(run(&mut table, vec![at_center(1, source)]), vec![moved(), wheel]);
    assert_eq!(run(&mut table, vec![at_center(1, mouse(false))]), vec![moved()]);
}

#[test]
fn scroll_that_cancels_gives_no_event() {
    let mut table = StateTable::new();
    let up = mouse_scrolling(false, ScrollDelta { x: 0, y: 1000 }, no_scroll());
    let down = mouse_scrolling(false, ScrollDelta { x: 0, y: -1000 }, no_scroll());
    assert_eq!(run(&mut table, vec![at_center(1, up), at_center(2, down)]), vec![moved(), moved()]);
}

#[test]
fn largest_scroll_of_two_sources_does_not_overflow() {
    let mut table = StateTable::new();
    let most = mouse_scrolling(false, ScrollDelta { x: i64::MAX, y: i64::MIN }, no_scroll());
    assert_eq!(
        run(&mut table, vec![at_center(1, most), at_center(2, most)]),
        vec![
            moved(),
            moved(),
            PointerEvent::MouseWheel {
                unit: ScrollUnit::Line,
                delta_x: 2 * (i64::MAX as i128),
                delta_y: 2 * (i64::MIN as i128),
            },
        ]
    );
}

#[test]
fn source_without_signals_is_passed_over() {
    let mut table = StateTable::new();
    run(&mut table, vec![at_center(5, controller(true))]);
    let mut lost = at_center(5, controller(true));
    lost.source = None;
    assert_eq!(run(&mut table, vec![lost]), vec![forced()]);
    assert!(!table.contains(5));
}

#[test]
fn source_that_stands_twice_is_new_the_second_time() {
    let mut table = StateTable::new();
    run(&mut table, vec![at_center(5, controller(true))]);
    assert_eq!(
        run(&mut table, vec![at_center(5, controller(true)), at_center(5, controller(true))]),
        vec![moved(), moved(), press()]
    );
    assert_eq!(table.state_of(5).map(|state: InputState| state.clicked), Some(true));
}

#[test]
fn table_keeps_the_state_of_the_frame() {
    let mut table = StateTable::new();
    let lines = ScrollDelta { x: 3000, y: -1000 };
    let pixels = ScrollDelta { x: 0, y: 250 };
    run(&mut table, vec![at_center(9, mouse_scrolling(true, lines, pixels))]);
    assert_eq!(
        table.state_of(9),
        Some(InputState { clicked: true, discrete_scroll: lines, continuous_scroll: pixels })
    );
    assert_eq!(table.state_of(8), None);
}

#[test]
fn default_table_is_empty() {
    let table = StateTable::default();
    assert!(!table.contains(1));
    assert_eq!(table.state_of(1), None);
}

#[test]
fn touching_source_clicks() {
    let mut table = StateTable::new();
    let mut touch = at_center(2, controller(false));
    touch.input_method_position = Point3 { x: 0, y: 0, z: 119 };
    assert_eq!(run(&mut table, vec![touch]), vec![moved(), press()]);
    let mut near = at_center(2, controller(false));
    near.input_method_position = Point3 { x: 0, y: 0, z: 120 };
    assert_eq!(run(&mut table, vec![near]), vec![moved(), release()]);
}

#[test]
fn touching_pointer_does_not_click() {
    let mut table = StateTable::new();
    let mut touch = at_center(2, mouse(false));
    touch.input_method_position = Point3 { x: 0, y: 0, z: 0 };
    assert_eq!(run(&mut table, vec![touch]), vec![moved()]);
}

#[test]
fn pinch_clicks_by_the_policy() {
    let geometry = panel();
    // The reach of the hand is 2 mm + 8 mm + 10 mm.
    let closed = at_center(1, hand(19_999_999));
    let open = at_center(1, hand(20_000_001));
    let on_reach = at_center(1, hand(20_000_000));

    let closing = Policy {
        capture_pinch: PinchPolicy::GapBelowReach,
        click_pinch: PinchPolicy::GapBelowReach,
        hysteresis: false,
    };
    let mut table = StateTable::new();
    assert_eq!(update_window(&closing, &geometry, &mut table, &vec![closed]), vec![moved(), press()]);
    assert_eq!(update_window(&closing, &geometry, &mut table, &vec![on_reach]), vec![moved(), release()]);
    assert_eq!(update_window(&closing, &geometry, &mut table, &vec![open]), vec![moved()]);

    let opening = Policy::new();
    assert_eq!(opening.click_pinch, PinchPolicy::GapAboveReach);
    let mut table = StateTable::new();
    assert_eq!(update_window(&opening, &geometry, &mut table, &vec![closed]), vec![moved()]);
    assert_eq!(update_window(&opening, &geometry, &mut table, &vec![on_reach]), vec![moved()]);
    assert_eq!(update_window(&opening, &geometry, &mut table, &vec![open]), vec![moved(), press()]);
}

#[test]
fn events_are_reported_where_the_source_points() {
    let mut table = StateTable::new();
    let mut method = at_center(1, mouse(true));
    method.closest_point = Point3 { x: -METRE / 2, y: METRE / 4, z: 0 };
    let pos = Pos2 { x: 512_000, y: 128_000 };
    assert_eq!(
        run(&mut table, vec![method]),
        vec![
            PointerEvent::PointerMoved(pos),
            PointerEvent::PointerButton { pos, pressed: true },
        ]
    );
}

#[test]
fn release_is_reported_where_the_source_points_now() {
    let mut table = StateTable::new();
    run(&mut table, vec![at_center(1, mouse(true))]);
    let mut method = at_center(1, mouse(false));
    method.closest_point = Point3 { x: METRE / 2, y: -METRE / 2, z: 0 };
    let pos = Pos2 { x: 0, y: 512_000 };
    assert_eq!(
        run(&mut table, vec![method]),
        vec![
            PointerEvent::PointerMoved(pos),
            PointerEvent::PointerButton { pos, pressed: false },
        ]
    );
}

#[test]
fn state_of_a_method_follows_its_signals() {
    let policy = Policy::new();
    let method = at_center(1, mouse_scrolling(true, ScrollDelta { x: 1, y: 2 }, ScrollDelta { x: 3, y: 4 }));
    assert_eq!(
        method.state(&policy).unwrap(),
        InputState {
            clicked: true,
            discrete_scroll: ScrollDelta { x: 1, y: 2 },
            continuous_scroll: ScrollDelta { x: 3, y: 4 },
        }
    );
    assert_eq!(
        at_center(1, controller(false)).state(&policy).unwrap(),
        InputState { clicked: false, discrete_scroll: no_scroll(), continuous_scroll: no_scroll() }
    );
    assert_eq!(Some(InputState::default()), at_center(1, controller(false)).state(&policy));
    let mut lost = at_center(1, controller(true));
    lost.source = None;
    assert_eq!(lost.state(&policy), None);
}

#[test]
fn synthesizer_leaves_behind_the_sources_that_left() {
    let policy = Policy::new();
    let mut table = StateTable::new();
    run(&mut table, vec![at_center(1, controller(true)), at_center(2, controller(true))]);
    let (events, next) =
        synthesize_events(&policy, &panel(), &mut table, &vec![at_center(2, controller(true))]);
    assert_eq!(events, vec![moved()]);
    assert!(table.contains(1));
    assert!(!table.contains(2));
    assert!(next.contains(2));
    assert!(!next.contains(1));
}

#[test]
fn reconciler_releases_what_was_held() {
    let policy = Policy::new();
    let mut table = StateTable::new();
    let (_, held) = synthesize_events(
        &policy,
        &panel(),
        &mut table,
        &vec![
            at_center(1, controller(true)),
            at_center(2, controller(false)),
            at_center(3, controller(true)),
        ],
    );
    let mut events = vec![moved()];
    reconcile_releases(held, &mut events);
    assert_eq!(events, vec![moved(), forced(), forced()]);
    let mut none = Vec::new();
    reconcile_releases(StateTable::new(), &mut none);
    assert_eq!(none, Vec::<PointerEvent>::new());
}

#[test]
fn source_in_the_table_keeps_capture_under_hysteresis() {
    let sticky = Policy { hysteresis: true, ..Policy::new() };
    let plain = Policy::new();
    let mut table = StateTable::new();
    let idle = at_center(6, controller(false));
    assert!(!idle.captured(&sticky, &table));
    update_window(&sticky, &panel(), &mut table, &vec![at_center(6, controller(true))]);
    assert!(idle.captured(&sticky, &table));
    assert!(!idle.captured(&plain, &table));
    assert!(!at_center(7, controller(false)).captured(&sticky, &table));
    let mut gone = idle;
    gone.input_method_position = Point3 { x: 0, y: 0, z: 150_000_001 };
    assert!(!gone.captured(&sticky, &table));
    let mut lost = idle;
    lost.source = None;
    assert!(!lost.captured(&sticky, &table));
}
