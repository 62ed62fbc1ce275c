//! What holds of the frames of a surface, one by one and one after another.

use vstd::prelude::*;
use vstd::set_lib::lemma_len_subset;
use crate::capture::{capture_decision, proximity_of, Policy, Proximity};
use crate::events::{forced_release, scroll_events, InputState, PointerEvent, ScrollUnit};
use crate::surface::WindowGeometry;
use crate::window::{
    continuous_total,
    discrete_total,
    forced_releases,
    frame_events,
    held_sources,
    last_state,
    live_events,
    next_states,
    pointer_events,
    refreshed_sources,
    source_events,
    stale_states,
    MethodContext,
};

verus! {

/// The scroll events of a frame in which `state` is the only state.
pub open spec fn scroll_of(state: InputState) -> Seq<PointerEvent> {
    scroll_events(ScrollUnit::Line, state.discrete_scroll.x as int, state.discrete_scroll.y as int)
        + scroll_events(
        ScrollUnit::Point,
        state.continuous_scroll.x as int,
        state.continuous_scroll.y as int,
    )
}

/// The sources whose state is kept after a frame are those whose state was
/// renewed in it.
pub proof fn lemma_next_states_hold_refreshed(policy: Policy, methods: Seq<MethodContext>)
    ensures
        next_states(policy, methods).dom() == refreshed_sources(methods),
    decreases methods.len(),
{
    if methods.len() > 0 {
        lemma_next_states_hold_refreshed(policy, methods.drop_last());
    }
    assert(next_states(policy, methods).dom() =~= refreshed_sources(methods));
}

/// The state that the table keeps for a source is that of its last appearance
/// in the frame.
pub proof fn lemma_next_states_keep_last_appearance(
    policy: Policy,
    methods: Seq<MethodContext>,
    at: int,
)
    requires
        0 <= at < methods.len(),
        methods[at].source is Some,
        forall|later: int|
            at < later < methods.len() && (#[trigger] methods[later]).source is Some
                ==> methods[later].input_method != methods[at].input_method,
    ensures
        next_states(policy, methods).contains_key(methods[at].input_method),
        next_states(policy, methods)[methods[at].input_method] == methods[at].current_state(
            policy,
        ),
    decreases methods.len(),
{
    if at < methods.len() - 1 {
        let before = methods.drop_last();
        assert(before[at] == methods[at]);
        assert forall|later: int|
            at < later < before.len() && (#[trigger] before[later]).source is Some
                implies before[later].input_method != before[at].input_method by {
            assert(before[later] == methods[later]);
        }
        lemma_next_states_keep_last_appearance(policy, before, at);
    }
}

/// Under hysteresis, a source that drove the surface in one frame and is in
/// close range in the next drives it again, whatever its signals: the table
/// that the first frame leaves holds the source.
pub proof fn lemma_driving_source_stays_captured(
    policy: Policy,
    methods: Seq<MethodContext>,
    at: int,
    now: MethodContext,
)
    requires
        policy.hysteresis,
        0 <= at < methods.len(),
        methods[at].source is Some,
        now.input_method == methods[at].input_method,
        now.source is Some,
        proximity_of(now.closest_point, now.input_method_position) == Proximity::CloseRange,
    ensures
        capture_decision(
            policy,
            now.capture_context(),
            now.source,
            next_states(policy, methods).contains_key(now.input_method),
        ),
{
    lemma_next_states_hold_refreshed(policy, methods);
    lemma_refreshed_holds_each(methods, at);
}

/// Each source whose signals were had is among those whose state is renewed.
pub proof fn lemma_refreshed_holds_each(methods: Seq<MethodContext>, at: int)
    requires
        0 <= at < methods.len(),
        methods[at].source is Some,
    ensures
        refreshed_sources(methods).contains(methods[at].input_method),
    decreases methods.len(),
{
    if at < methods.len() - 1 {
        lemma_refreshed_holds_each(methods.drop_last(), at);
    }
}

/// Each source whose state is renewed stands among the sources with its
/// signals had.
pub proof fn lemma_refreshed_stands_among(methods: Seq<MethodContext>, source: u64) -> (at: int)
    requires
        refreshed_sources(methods).contains(source),
    ensures
        0 <= at < methods.len(),
        methods[at].source is Some,
        methods[at].input_method == source,
    decreases methods.len(),
{
    if methods.last().source is Some && methods.last().input_method == source {
        methods.len() - 1
    } else {
        lemma_refreshed_stands_among(methods.drop_last(), source)
    }
}

/// The button of a source is compared with the state that the source had in
/// the frame before. Where a source stands once in each of two frames, one
/// after the other, among whatever other sources, the state that the second
/// frame looks up for it is the state that it had in the first.
pub proof fn lemma_button_is_compared_with_last_frame(
    policy: Policy,
    prev: Map<u64, InputState>,
    earlier: Seq<MethodContext>,
    later: Seq<MethodContext>,
    then: int,
    now: int,
)
    requires
        0 <= then < earlier.len(),
        0 <= now < later.len(),
        earlier[then].source is Some,
        later[now].source is Some,
        later[now].input_method == earlier[then].input_method,
        forall|other: int|
            then < other < earlier.len() && (#[trigger] earlier[other]).source is Some
                ==> earlier[other].input_method != earlier[then].input_method,
        forall|other: int|
            0 <= other < now && (#[trigger] later[other]).source is Some
                ==> later[other].input_method != later[now].input_method,
    ensures
        last_state(
            stale_states(next_states(policy, earlier), later.take(now)),
            later[now].input_method,
        ) == earlier[then].current_state(policy),
{
    let source = later[now].input_method;
    lemma_next_states_keep_last_appearance(policy, earlier, then);
    if refreshed_sources(later.take(now)).contains(source) {
        let other = lemma_refreshed_stands_among(later.take(now), source);
        assert(later.take(now)[other] == later[other]);
    }
}

/// A frame with one source whose signals were had: the source's own events
/// against its last state, its scroll, and a forced release for each other
/// source that was held. Afterwards the table holds that source alone.
pub proof fn lemma_single_source_frame(
    policy: Policy,
    geometry: WindowGeometry,
    prev: Map<u64, InputState>,
    method: MethodContext,
)
    requires
        method.source is Some,
    ensures
        next_states(policy, seq![method]) == Map::<u64, InputState>::empty().insert(
            method.input_method,
            method.current_state(policy),
        ),
        stale_states(prev, seq![method]) == prev.remove(method.input_method),
        frame_events(policy, geometry, prev, seq![method]) == source_events(
            geometry.position_of(method.closest_point),
            last_state(prev, method.input_method),
            method.current_state(policy),
        ) + scroll_of(method.current_state(policy)) + forced_releases(
            held_sources(prev.remove(method.input_method)).len(),
        ),
{
    let methods = seq![method];
    let none = Seq::<MethodContext>::empty();
    assert(methods.drop_last() =~= none);
    assert(methods.last() == method);
    assert(refreshed_sources(none) =~= Set::<u64>::empty());
    assert(stale_states(prev, none) =~= prev);
    assert(refreshed_sources(methods) =~= Set::<u64>::empty().insert(method.input_method));
    assert(stale_states(prev, methods) =~= prev.remove(method.input_method));
    assert(next_states(policy, none) =~= Map::<u64, InputState>::empty());
    assert(pointer_events(policy, geometry, prev, none) =~= Seq::<PointerEvent>::empty());
    assert(pointer_events(policy, geometry, prev, methods) =~= source_events(
        geometry.position_of(method.closest_point),
        last_state(prev, method.input_method),
        method.current_state(policy),
    ));
    assert(discrete_total(none) == (0int, 0int));
    assert(continuous_total(none) == (0int, 0int));
}

/// The button gives an event only when it changes. Over four frames in which
/// one source holds the button up, down, down and up, the second frame holds
/// one press, the third no button event, the fourth one release, whatever the
/// table held before the first.
pub proof fn lemma_edge_triggering(
    policy: Policy,
    geometry: WindowGeometry,
    first: MethodContext,
    second: MethodContext,
    third: MethodContext,
    fourth: MethodContext,
)
    requires
        first.source is Some,
        second.source is Some,
        third.source is Some,
        fourth.source is Some,
        second.input_method == first.input_method,
        third.input_method == first.input_method,
        fourth.input_method == first.input_method,
        !first.current_state(policy).clicked,
        second.current_state(policy).clicked,
        third.current_state(policy).clicked,
        !fourth.current_state(policy).clicked,
    ensures
        ({
            let after_first = next_states(policy, seq![first]);
            let after_second = next_states(policy, seq![second]);
            let after_third = next_states(policy, seq![third]);
            let at_second = geometry.position_of(second.closest_point);
            let at_third = geometry.position_of(third.closest_point);
            let at_fourth = geometry.position_of(fourth.closest_point);
            &&& frame_events(policy, geometry, after_first, seq![second]) == seq![
                PointerEvent::PointerMoved(at_second),
                PointerEvent::PointerButton { pos: at_second, pressed: true },
            ] + scroll_of(second.current_state(policy))
            &&& frame_events(policy, geometry, after_second, seq![third]) == seq![
                PointerEvent::PointerMoved(at_third),
            ] + scroll_of(third.current_state(policy))
            &&& frame_events(policy, geometry, after_third, seq![fourth]) == seq![
                PointerEvent::PointerMoved(at_fourth),
                PointerEvent::PointerButton { pos: at_fourth, pressed: false },
            ] + scroll_of(fourth.current_state(policy))
        }),
{
    let source = first.input_method;
    let after_first = next_states(policy, seq![first]);
    let after_second = next_states(policy, seq![second]);
    let after_third = next_states(policy, seq![third]);
    let nothing = Map::<u64, InputState>::empty();
    lemma_single_source_frame(policy, geometry, nothing, first);
    lemma_single_source_frame(policy, geometry, nothing, second);
    lemma_single_source_frame(policy, geometry, nothing, third);
    lemma_single_source_frame(policy, geometry, after_first, second);
    lemma_single_source_frame(policy, geometry, after_second, third);
    lemma_single_source_frame(policy, geometry, after_third, fourth);
    assert(after_first.remove(source) =~= nothing);
    assert(after_second.remove(source) =~= nothing);
    assert(after_third.remove(source) =~= nothing);
    assert(held_sources(nothing) =~= Set::<u64>::empty());
    assert(forced_releases(0) =~= Seq::<PointerEvent>::empty());
    let at_second = geometry.position_of(second.closest_point);
    let at_third = geometry.position_of(third.closest_point);
    let at_fourth = geometry.position_of(fourth.closest_point);
    assert(source_events(
        at_second,
        last_state(after_first, source),
        second.current_state(policy),
    ) =~= seq![
        PointerEvent::PointerMoved(at_second),
        PointerEvent::PointerButton { pos: at_second, pressed: true },
    ]);
    assert(source_events(at_third, last_state(after_second, source), third.current_state(policy))
        =~= seq![PointerEvent::PointerMoved(at_third)]);
    assert(source_events(
        at_fourth,
        last_state(after_third, source),
        fourth.current_state(policy),
    ) =~= seq![
        PointerEvent::PointerMoved(at_fourth),
        PointerEvent::PointerButton { pos: at_fourth, pressed: false },
    ]);
    assert(frame_events(policy, geometry, after_first, seq![second]) =~= seq![
        PointerEvent::PointerMoved(at_second),
        PointerEvent::PointerButton { pos: at_second, pressed: true },
    ] + scroll_of(second.current_state(policy)));
    assert(frame_events(policy, geometry, after_second, seq![third]) =~= seq![
        PointerEvent::PointerMoved(at_third),
    ] + scroll_of(third.current_state(policy)));
    assert(frame_events(policy, geometry, after_third, seq![fourth]) =~= seq![
        PointerEvent::PointerMoved(at_fourth),
        PointerEvent::PointerButton { pos: at_fourth, pressed: false },
    ] + scroll_of(fourth.current_state(policy)));
}

/// No button stays stuck. A source that was held in the last frame and whose
/// state is not renewed in this one is among those that get a forced release,
/// one each, at the end of the frame, and the table no longer holds it.
pub proof fn lemma_stale_press_is_released(
    policy: Policy,
    geometry: WindowGeometry,
    prev: Map<u64, InputState>,
    methods: Seq<MethodContext>,
    source: u64,
)
    requires
        prev.dom().finite(),
        prev.contains_key(source),
        prev[source].clicked,
        !refreshed_sources(methods).contains(source),
    ensures
        held_sources(stale_states(prev, methods)).finite(),
        held_sources(stale_states(prev, methods)).contains(source),
        held_sources(stale_states(prev, methods)).len() >= 1,
        frame_events(policy, geometry, prev, methods) == live_events(
            policy,
            geometry,
            prev,
            methods,
        ) + forced_releases(held_sources(stale_states(prev, methods)).len()),
        !next_states(policy, methods).contains_key(source),
{
    let held = held_sources(stale_states(prev, methods));
    assert(held.subset_of(prev.dom()));
    lemma_len_subset(held, prev.dom());
    assert(held.contains(source));
    if held.len() == 0 {
        held.lemma_len0_is_empty();
    }
    lemma_next_states_hold_refreshed(policy, methods);
}

/// A source that left with the button down is released once: in the frame in
/// which no source drives the surface, after the news that the pointer is
/// gone. The table is empty afterwards, so the next such frame holds no
/// release.
pub proof fn lemma_lone_stale_press_is_released_once(
    policy: Policy,
    geometry: WindowGeometry,
    source: u64,
    kept: InputState,
)
    requires
        kept.clicked,
    ensures
        ({
            let prev = Map::<u64, InputState>::empty().insert(source, kept);
            let none = Seq::<MethodContext>::empty();
            &&& frame_events(policy, geometry, prev, none) == seq![
                PointerEvent::PointerGone,
                forced_release(),
            ]
            &&& next_states(policy, none) == Map::<u64, InputState>::empty()
            &&& frame_events(policy, geometry, next_states(policy, none), none) == seq![
                PointerEvent::PointerGone,
            ]
        }),
{
    let nothing = Map::<u64, InputState>::empty();
    let prev = nothing.insert(source, kept);
    let none = Seq::<MethodContext>::empty();
    assert(stale_states(prev, none) =~= prev);
    assert(stale_states(nothing, none) =~= nothing);
    assert(held_sources(prev) =~= Set::<u64>::empty().insert(source));
    assert(held_sources(nothing) =~= Set::<u64>::empty());
    assert(forced_releases(1) =~= seq![forced_release()]);
    assert(forced_releases(0) =~= Seq::<PointerEvent>::empty());
    assert(frame_events(policy, geometry, prev, none) =~= seq![
        PointerEvent::PointerGone,
        forced_release(),
    ]);
    assert(frame_events(policy, geometry, nothing, none) =~= seq![PointerEvent::PointerGone]);
}

/// While no source drives the surface, its GUI hears that the pointer is
/// gone and nothing else of the pointer: no move, no press, no scroll. Only
/// the forced releases of sources that left with the button down follow, and
/// where there is none the news stands alone. The table is empty afterwards.
pub proof fn lemma_pointer_gone_stands_alone(
    policy: Policy,
    geometry: WindowGeometry,
    prev: Map<u64, InputState>,
)
    ensures
        ({
            let none = Seq::<MethodContext>::empty();
            &&& live_events(policy, geometry, prev, none) == seq![PointerEvent::PointerGone]
            &&& frame_events(policy, geometry, prev, none) == seq![PointerEvent::PointerGone]
                + forced_releases(held_sources(prev).len())
            &&& held_sources(prev) == Set::<u64>::empty() ==> frame_events(
                policy,
                geometry,
                prev,
                none,
            ) == seq![PointerEvent::PointerGone]
            &&& next_states(policy, none) == Map::<u64, InputState>::empty()
        }),
{
    let none = Seq::<MethodContext>::empty();
    assert(stale_states(prev, none) =~= prev);
    assert(forced_releases(0) =~= Seq::<PointerEvent>::empty());
    if held_sources(prev) == Set::<u64>::empty() {
        assert(frame_events(policy, geometry, prev, none) =~= seq![PointerEvent::PointerGone]);
    }
}

/// The scroll of the sources of a frame adds up: the total of two runs of
/// sources, one after the other, is the sum of their totals.
pub proof fn lemma_scroll_adds(earlier: Seq<MethodContext>, later: Seq<MethodContext>)
    ensures
        discrete_total(earlier + later).0 == discrete_total(earlier).0 + discrete_total(later).0,
        discrete_total(earlier + later).1 == discrete_total(earlier).1 + discrete_total(later).1,
        continuous_total(earlier + later).0 == continuous_total(earlier).0 + continuous_total(
            later,
        ).0,
        continuous_total(earlier + later).1 == continuous_total(earlier).1 + continuous_total(
            later,
        ).1,
    decreases later.len(),
{
    if later.len() == 0 {
        assert(earlier + later =~= earlier);
    } else {
        lemma_scroll_adds(earlier, later.drop_last());
        assert((earlier + later).drop_last() =~= earlier + later.drop_last());
        assert((earlier + later).last() == later.last());
    }
}

/// Two sources that scroll in one frame give one scroll event in lines, with
/// the sum of their scroll, unless the sum is zero on both axes.
pub proof fn lemma_two_sources_scroll_together(
    policy: Policy,
    geometry: WindowGeometry,
    prev: Map<u64, InputState>,
    one: MethodContext,
    other: MethodContext,
)
    requires
        one.source is Some,
        other.source is Some,
    ensures
        ({
            let lines = one.source.unwrap().discrete_scroll();
            let more_lines = other.source.unwrap().discrete_scroll();
            let pixels = one.source.unwrap().continuous_scroll();
            let more_pixels = other.source.unwrap().continuous_scroll();
            let lines_x = lines.x + more_lines.x;
            let lines_y = lines.y + more_lines.y;
            let pixels_x = pixels.x + more_pixels.x;
            let pixels_y = pixels.y + more_pixels.y;
            live_events(policy, geometry, prev, seq![one, other]) == pointer_events(
                policy,
                geometry,
                prev,
                seq![one, other],
            ) + scroll_events(ScrollUnit::Line, lines_x, lines_y) + scroll_events(
                ScrollUnit::Point,
                pixels_x,
                pixels_y,
            )
        }),
{
    let none = Seq::<MethodContext>::empty();
    assert(seq![one].drop_last() =~= none);
    assert(seq![other].drop_last() =~= none);
    assert(discrete_total(none) == (0int, 0int));
    assert(continuous_total(none) == (0int, 0int));
    assert(seq![one].last() == one);
    assert(seq![other].last() == other);
    lemma_scroll_adds(seq![one], seq![other]);
    assert(seq![one] + seq![other] =~= seq![one, other]);
}

} // verus!
