//! One frame of one surface: from the sources that drive it to the pointer
//! events of its GUI, and to the states that it keeps for the next frame.

use vstd::prelude::*;
use crate::capture::{
    capture_decision,
    input_surface_capture_condition,
    proximity,
    proximity_of,
    CaptureContext,
    Policy,
    Proximity,
};
use crate::events::{
    button_events,
    forced_release,
    scroll_events,
    InputState,
    PointerEvent,
    ScrollUnit,
};
use crate::geometry::Point3;
use crate::source::{InputSource, ScrollDelta, Signals};
use crate::surface::{Pos2, WindowGeometry};
use crate::table::{table_insert, table_into_entries, table_new, table_remove, StateTable};

verus! {

/// One source that drives the surface in this frame.
#[derive(Clone, Copy, Debug, PartialEq, Eq, Structural)]
pub struct MethodContext {
    /// The 64 bits of the source's entity.
    pub input_method: u64,
    /// The point of the surface nearest to the source.
    pub closest_point: Point3,
    /// Where the source is.
    pub input_method_position: Point3,
    /// The signals of the source, or `None` where they could not be had: such
    /// a source is passed over.
    pub source: Option<InputSource>,
}

impl MethodContext {
    /// The state of the source in this frame. The button is down when the
    /// source's signals hold it down, and also when a source other than a
    /// pointer touches the surface.
    pub open spec fn current_state(self, policy: Policy) -> InputState {
        let source = self.source.unwrap();
        InputState {
            clicked: (proximity_of(self.closest_point, self.input_method_position)
                == Proximity::Touching && !source.is_pointer) || source.presses(
                policy.click_pinch,
            ),
            discrete_scroll: source.discrete_scroll(),
            continuous_scroll: source.continuous_scroll(),
        }
    }

    /// The source as it is offered to the surface.
    pub open spec fn capture_context(self) -> CaptureContext {
        CaptureContext {
            closest_point: self.closest_point,
            input_method_position: self.input_method_position,
        }
    }

    /// Decides whether the source drives the surface whose states are in
    /// `state`. A source whose state is held there drove the surface in the
    /// last frame.
    pub fn captured(&self, policy: &Policy, state: &StateTable) -> (capture: bool)
        ensures
            capture == capture_decision(
                *policy,
                self.capture_context(),
                self.source,
                state@.contains_key(self.input_method),
            ),
    {
        let ctx = CaptureContext {
            closest_point: self.closest_point,
            input_method_position: self.input_method_position,
        };
        let was_captured: bool = state.contains(self.input_method);
        match &self.source {
            Some(source) => input_surface_capture_condition(
                policy,
                &ctx,
                Some(source),
                was_captured,
            ),
            None => input_surface_capture_condition(policy, &ctx, None, was_captured),
        }
    }

    /// Works out the state of the source in this frame, if its signals were
    /// had.
    pub fn state(&self, policy: &Policy) -> (state: Option<InputState>)
        ensures
            state == (match self.source {
                Some(_) => Some(self.current_state(*policy)),
                None => None,
            }),
    {
        let source: InputSource = match self.source {
            Some(source) => source,
            None => {
                return None;
            },
        };
        let touching: bool = !source.is_pointer && proximity(
            self.closest_point,
            self.input_method_position,
        ) == Proximity::Touching;
        let (discrete_scroll, continuous_scroll) = match source.signals {
            Signals::Mouse(mouse) => (mouse.discrete_scroll, mouse.continuous_scroll),
            _ => (ScrollDelta { x: 0, y: 0 }, ScrollDelta { x: 0, y: 0 }),
        };
        Some(
            InputState {
                clicked: touching || source.pressing(policy.click_pinch),
                discrete_scroll,
                continuous_scroll,
            },
        )
    }
}

/// The state that a source had before this frame: what the table holds for
/// it, or the idle state.
pub open spec fn last_state(states: Map<u64, InputState>, source: u64) -> InputState {
    if states.contains_key(source) {
        states[source]
    } else {
        InputState::idle()
    }
}

/// The events of one source: it moved to `pos`, and its button went down or
/// up there if it changed.
pub open spec fn source_events(pos: Pos2, last: InputState, current: InputState) -> Seq<
    PointerEvent,
> {
    seq![PointerEvent::PointerMoved(pos)] + button_events(pos, last.clicked, current.clicked)
}

/// The sources among `methods` whose signals were had: those whose state is
/// renewed in this frame.
pub open spec fn refreshed_sources(methods: Seq<MethodContext>) -> Set<u64>
    decreases methods.len(),
{
    if methods.len() == 0 {
        Set::empty()
    } else if methods.last().source is Some {
        refreshed_sources(methods.drop_last()).insert(methods.last().input_method)
    } else {
        refreshed_sources(methods.drop_last())
    }
}

/// What is left of the states of the last frame once the sources of this
/// frame are taken out.
pub open spec fn stale_states(prev: Map<u64, InputState>, methods: Seq<MethodContext>) -> Map<
    u64,
    InputState,
> {
    prev.remove_keys(refreshed_sources(methods))
}

/// The states that the table holds after this frame: for each source whose
/// signals were had, its state in this frame, and nothing else.
pub open spec fn next_states(policy: Policy, methods: Seq<MethodContext>) -> Map<u64, InputState>
    decreases methods.len(),
{
    if methods.len() == 0 {
        Map::empty()
    } else if methods.last().source is Some {
        next_states(policy, methods.drop_last()).insert(
            methods.last().input_method,
            methods.last().current_state(policy),
        )
    } else {
        next_states(policy, methods.drop_last())
    }
}

/// The events of all sources, in the order of the sources. The state that a
/// source had before is looked up once: a source that stands twice among
/// `methods` is new the second time.
pub open spec fn pointer_events(
    policy: Policy,
    geometry: WindowGeometry,
    prev: Map<u64, InputState>,
    methods: Seq<MethodContext>,
) -> Seq<PointerEvent>
    decreases methods.len(),
{
    if methods.len() == 0 {
        Seq::empty()
    } else {
        let before = methods.drop_last();
        let method = methods.last();
        if method.source is Some {
            pointer_events(policy, geometry, prev, before) + source_events(
                geometry.position_of(method.closest_point),
                last_state(stale_states(prev, before), method.input_method),
                method.current_state(policy),
            )
        } else {
            pointer_events(policy, geometry, prev, before)
        }
    }
}

/// The scroll in lines of all sources together, on both axes.
pub open spec fn discrete_total(methods: Seq<MethodContext>) -> (int, int)
    decreases methods.len(),
{
    if methods.len() == 0 {
        (0, 0)
    } else if methods.last().source is Some {
        let rest = discrete_total(methods.drop_last());
        let own = methods.last().source.unwrap().discrete_scroll();
        (rest.0 + own.x, rest.1 + own.y)
    } else {
        discrete_total(methods.drop_last())
    }
}

/// The scroll in pixels of all sources together, on both axes.
pub open spec fn continuous_total(methods: Seq<MethodContext>) -> (int, int)
    decreases methods.len(),
{
    if methods.len() == 0 {
        (0, 0)
    } else if methods.last().source is Some {
        let rest = continuous_total(methods.drop_last());
        let own = methods.last().source.unwrap().continuous_scroll();
        (rest.0 + own.x, rest.1 + own.y)
    } else {
        continuous_total(methods.drop_last())
    }
}

/// The sources that `states` holds with the button down.
pub open spec fn held_sources(states: Map<u64, InputState>) -> Set<u64> {
    Set::new(|source: u64| states.contains_key(source) && states[source].clicked)
}

/// `count` forced releases.
pub open spec fn forced_releases(count: nat) -> Seq<PointerEvent> {
    Seq::new(count, |i: int| forced_release())
}

/// What the sources of this frame give: nothing but the news that the pointer
/// is gone when no source drives the surface; else the events of each source,
/// then the scroll of all of them together, in lines and in pixels.
pub open spec fn live_events(
    policy: Policy,
    geometry: WindowGeometry,
    prev: Map<u64, InputState>,
    methods: Seq<MethodContext>,
) -> Seq<PointerEvent> {
    if methods.len() == 0 {
        seq![PointerEvent::PointerGone]
    } else {
        pointer_events(policy, geometry, prev, methods) + scroll_events(
            ScrollUnit::Line,
            discrete_total(methods).0,
            discrete_total(methods).1,
        ) + scroll_events(
            ScrollUnit::Point,
            continuous_total(methods).0,
            continuous_total(methods).1,
        )
    }
}

/// All events of one frame: what the sources of this frame give, then one
/// forced release for each source that left with the button down.
pub open spec fn frame_events(
    policy: Policy,
    geometry: WindowGeometry,
    prev: Map<u64, InputState>,
    methods: Seq<MethodContext>,
) -> Seq<PointerEvent> {
    live_events(policy, geometry, prev, methods) + forced_releases(
        held_sources(stale_states(prev, methods)).len(),
    )
}

/// Whether the entry at `at` is `source` with the button down.
spec fn holds_at(entries: Seq<(u64, InputState)>, at: int, source: u64) -> bool {
    entries[at].0 == source && entries[at].1.clicked
}

/// The sources with the button down among the first `upto` entries.
spec fn held_among(entries: Seq<(u64, InputState)>, upto: int) -> Set<u64> {
    Set::new(
        |source: u64| exists|at: int| 0 <= at < upto && #[trigger] holds_at(entries, at, source),
    )
}

/// Taking one more source into account: the sources before it are those of
/// the shorter list.
proof fn lemma_take_step(methods: Seq<MethodContext>, count: int)
    requires
        0 <= count < methods.len(),
    ensures
        methods.take(count + 1).drop_last() == methods.take(count),
        methods.take(count + 1).last() == methods[count],
        methods.take(count + 1).len() == count + 1,
{
    assert(methods.take(count + 1).drop_last() =~= methods.take(count));
}

/// Taking one more entry into account adds its source where its button is
/// down.
proof fn lemma_held_step(entries: Seq<(u64, InputState)>, upto: int)
    requires
        0 <= upto < entries.len(),
        forall|i: int, j: int|
            0 <= i < j < entries.len() ==> (#[trigger] entries[i]).0 != (#[trigger] entries[j]).0,
        held_among(entries, upto).finite(),
    ensures
        held_among(entries, upto + 1).finite(),
        entries[upto].1.clicked ==> held_among(entries, upto + 1).len() == held_among(
            entries,
            upto,
        ).len() + 1,
        !entries[upto].1.clicked ==> held_among(entries, upto + 1) == held_among(entries, upto),
{
    let before = held_among(entries, upto);
    let after = held_among(entries, upto + 1);
    let key = entries[upto].0;
    let added = if entries[upto].1.clicked {
        before.insert(key)
    } else {
        before
    };
    assert forall|source: u64| after.contains(source) <==> added.contains(source) by {
        if after.contains(source) {
            let at = choose|at: int|
                0 <= at < upto + 1 && #[trigger] holds_at(entries, at, source);
            if at < upto {
                assert(holds_at(entries, at, source));
            }
        }
        if before.contains(source) {
            let at = choose|at: int| 0 <= at < upto && #[trigger] holds_at(entries, at, source);
            assert(holds_at(entries, at, source));
        }
        if entries[upto].1.clicked {
            assert(holds_at(entries, upto, key));
        }
    }
    assert(after =~= added);
    if before.contains(key) {
        let at = choose|at: int| 0 <= at < upto && #[trigger] holds_at(entries, at, key);
        assert(entries[at].0 != entries[upto].0);
    }
}

/// Once every entry of a map has come out, the sources with the button down
/// among the entries are those of the map.
proof fn lemma_held_all(entries: Seq<(u64, InputState)>, states: Map<u64, InputState>)
    requires
        forall|i: int|
            0 <= i < entries.len() ==> states.contains_pair(
                (#[trigger] entries[i]).0,
                entries[i].1,
            ),
        forall|source: u64| #[trigger]
            states.contains_key(source) ==> exists|i: int|
                0 <= i < entries.len() && (#[trigger] entries[i]).0 == source,
    ensures
        held_among(entries, entries.len() as int) == held_sources(states),
{
    let among = held_among(entries, entries.len() as int);
    assert forall|source: u64| among.contains(source) <==> held_sources(states).contains(
        source,
    ) by {
        if among.contains(source) {
            let at = choose|at: int|
                0 <= at < entries.len() && #[trigger] holds_at(entries, at, source);
            assert(states.contains_pair(entries[at].0, entries[at].1));
        }
        if held_sources(states).contains(source) {
            let at = choose|at: int|
                0 <= at < entries.len() && (#[trigger] entries[at]).0 == source;
            assert(states.contains_pair(entries[at].0, entries[at].1));
            assert(holds_at(entries, at, source));
        }
    }
    assert(among =~= held_sources(states));
}

/// Makes the events of the sources that drive the surface in this frame.
///
/// `state` holds the states that the sources had in the last frame. The state
/// of each source of this frame is taken out of it once, so that afterwards
/// it holds the sources that were left behind. What comes back are the events
/// and the states of this frame.
pub fn synthesize_events(
    policy: &Policy,
    geometry: &WindowGeometry,
    state: &mut StateTable,
    methods: &Vec<MethodContext>,
) -> (made: (Vec<PointerEvent>, StateTable))
    requires
        geometry.wf(),
    ensures
        made.0@ == live_events(*policy, *geometry, old(state)@, methods@),
        made.1@ == next_states(*policy, methods@),
        final(state)@ == stale_states(old(state)@, methods@),
{
    let ghost prev = state@;
    let mut events: Vec<PointerEvent> = Vec::new();
    if methods.len() == 0 {
        events.push(PointerEvent::PointerGone);
    }
    let ghost head = events@;
    let mut next = table_new();
    let mut lines_x: i128 = 0;
    let mut lines_y: i128 = 0;
    let mut pixels_x: i128 = 0;
    let mut pixels_y: i128 = 0;
    let mut i: usize = 0;
    assert(state@ =~= stale_states(prev, methods@.take(0)));
    while i < methods.len()
        invariant
            i <= methods.len(),
            geometry.wf(),
            state@ == stale_states(prev, methods@.take(i as int)),
            next@ == next_states(*policy, methods@.take(i as int)),
            events@ == head + pointer_events(*policy, *geometry, prev, methods@.take(i as int)),
            lines_x == discrete_total(methods@.take(i as int)).0,
            lines_y == discrete_total(methods@.take(i as int)).1,
            pixels_x == continuous_total(methods@.take(i as int)).0,
            pixels_y == continuous_total(methods@.take(i as int)).1,
            -(i * 0x8000_0000_0000_0000) <= lines_x <= i * 0x8000_0000_0000_0000,
            -(i * 0x8000_0000_0000_0000) <= lines_y <= i * 0x8000_0000_0000_0000,
            -(i * 0x8000_0000_0000_0000) <= pixels_x <= i * 0x8000_0000_0000_0000,
            -(i * 0x8000_0000_0000_0000) <= pixels_y <= i * 0x8000_0000_0000_0000,
        decreases methods.len() - i,
    {
        let method: MethodContext = methods[i];
        proof {
            lemma_take_step(methods@, i as int);
        }
        let ghost before = methods@.take(i as int);
        if let Some(current) = method.state(policy) {
            let pos: Pos2 = geometry.contact_position(method.closest_point);
            events.push(PointerEvent::PointerMoved(pos));
            let last: InputState = match table_remove(state, method.input_method) {
                Some(kept) => kept,
                None => InputState::default(),
            };
            if current.clicked && !last.clicked {
                events.push(PointerEvent::PointerButton { pos, pressed: true });
            }
            if !current.clicked && last.clicked {
                events.push(PointerEvent::PointerButton { pos, pressed: false });
            }
            lines_x = lines_x + current.discrete_scroll.x as i128;
            lines_y = lines_y + current.discrete_scroll.y as i128;
            pixels_x = pixels_x + current.continuous_scroll.x as i128;
            pixels_y = pixels_y + current.continuous_scroll.y as i128;
            table_insert(&mut next, method.input_method, current);
            proof {
                assert(state@ =~= stale_states(prev, methods@.take(i + 1)));
                assert(last == last_state(stale_states(prev, before), method.input_method));
                assert(events@ =~= head + pointer_events(
                    *policy,
                    *geometry,
                    prev,
                    methods@.take(i + 1),
                ));
            }
        }
        i = i + 1;
    }
    assert(methods@.take(methods.len() as int) =~= methods@);
    if lines_x != 0 || lines_y != 0 {
        events.push(
            PointerEvent::MouseWheel { unit: ScrollUnit::Line, delta_x: lines_x, delta_y: lines_y },
        );
    }
    if pixels_x != 0 || pixels_y != 0 {
        events.push(
            PointerEvent::MouseWheel {
                unit: ScrollUnit::Point,
                delta_x: pixels_x,
                delta_y: pixels_y,
            },
        );
    }
    assert(events@ =~= live_events(*policy, *geometry, prev, methods@));
    (events, next)
}

/// Releases the button of every source that was left behind with the button
/// down: one forced release each is added to `events`. The states in `stale`
/// are dropped.
pub fn reconcile_releases(stale: StateTable, events: &mut Vec<PointerEvent>)
    ensures
        final(events)@ == old(events)@ + forced_releases(held_sources(stale@).len()),
{
    let ghost live = events@;
    let ghost states = stale@;
    let entries: Vec<(u64, InputState)> = table_into_entries(stale);
    let mut j: usize = 0;
    assert(held_among(entries@, 0) =~= Set::<u64>::empty());
    assert(live + forced_releases(0) =~= live);
    while j < entries.len()
        invariant
            j <= entries.len(),
            forall|a: int, b: int|
                0 <= a < b < entries.len() ==> (#[trigger] entries[a]).0 != (
                #[trigger] entries[b]).0,
            held_among(entries@, j as int).finite(),
            events@ == live + forced_releases(held_among(entries@, j as int).len()),
        decreases entries.len() - j,
    {
        proof {
            lemma_held_step(entries@, j as int);
        }
        let ghost count = held_among(entries@, j as int).len();
        if entries[j].1.clicked {
            events.push(PointerEvent::PointerButton { pos: Pos2 { x: 0, y: 0 }, pressed: false });
            assert(events@ =~= live + forced_releases(count + 1));
        }
        j = j + 1;
    }
    proof {
        lemma_held_all(entries@, states);
    }
}

/// Runs one frame of one surface: the events of the sources that drive it,
/// then the release of those that left.
///
/// `state` holds the states that the sources had in the last frame, and
/// afterwards those of this frame. `methods` are the sources that drive the
/// surface in this frame. The events that come back are for the GUI of the
/// surface, in order.
pub fn update_window(
    policy: &Policy,
    geometry: &WindowGeometry,
    state: &mut StateTable,
    methods: &Vec<MethodContext>,
) -> (events: Vec<PointerEvent>)
    requires
        geometry.wf(),
    ensures
        events@ == frame_events(*policy, *geometry, old(state)@, methods@),
        final(state)@ == next_states(*policy, methods@),
{
    let (mut events, mut next) = synthesize_events(policy, geometry, state, methods);
    core::mem::swap(state, &mut next);
    reconcile_releases(next, &mut events);
    events
}

} // verus!
