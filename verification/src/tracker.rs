//! The stateful diff engine that turns successive input states into events.

use std::collections::HashMap;
use vstd::prelude::*;
use crate::element::{
    lemma_button_at, lemma_from_index, lemma_index_is_a_bijection, InputElement, BUTTON_COUNT,
    ELEMENT_COUNT,
};
use crate::event::{in_element_order, InputEvent};
use crate::input::{InputState, PadHit, PadState};

verus! {

/// Number of updates after which a button that stays pressed reports as
/// held: it does so on every update that comes at least this many updates
/// after the one that saw it go down.
pub const HELD_THRESHOLD: u32 = 30;

/// Number of knob elements: the eight knobs and the main encoder.
pub const KNOB_COUNT: u8 = 9;

/// Number of audio elements.
pub const AUDIO_COUNT: u8 = 3;

/// The tracker's state as a mathematical value.
pub struct TrackerState {
    /// The state seen by the latest update, if there was one.
    pub previous: Option<InputState>,
    /// For each pressed button, the number of the update that saw it go down.
    pub held: Map<InputElement, u32>,
    /// Number of updates so far.
    pub frame_count: u32,
    /// Whether no update has happened yet.
    pub first_update: bool,
}

/// Tracks input state across updates and derives press, release, hold and
/// value-change events.
#[derive(Debug)]
pub struct InputTracker {
    previous_state: Option<InputState>,
    /// Keyed by the element's position in the declaration order.
    held_buttons: HashMap<u8, u32>,
    frame_count: u32,
    is_first_update: bool,
}

/// The held-since table over elements that a table over element positions
/// stands for.
spec fn held_by_element(m: Map<u8, u32>) -> Map<InputElement, u32> {
    Map::new(|e: InputElement| m.contains_key(e.spec_index()), |e: InputElement| m[e.spec_index()])
}

/// The event that one on/off element contributes to an update, given its
/// state before and after, the update at which it went down (if recorded),
/// and the number of the current update.
pub open spec fn button_event(
    element: InputElement,
    was_pressed: bool,
    is_pressed: bool,
    held_since: Option<u32>,
    frame: u32,
) -> Option<InputEvent> {
    if !was_pressed && is_pressed {
        Some(InputEvent::ButtonPressed(element))
    } else if was_pressed && !is_pressed {
        Some(InputEvent::ButtonReleased(element))
    } else if was_pressed && is_pressed {
        match held_since {
            Some(since) if frame - since >= HELD_THRESHOLD => Some(InputEvent::ButtonHeld(element)),
            _ => None,
        }
    } else {
        None
    }
}

/// The event, if any, that the `i`-th on/off element contributes to an
/// update.
pub open spec fn element_event(
    prev: InputState,
    current: InputState,
    held: Map<InputElement, u32>,
    frame: u32,
    i: int,
) -> Option<InputEvent> {
    let element = InputElement::spec_button_at(i);
    button_event(
        element,
        prev.spec_get_button(&element),
        current.spec_get_button(&element),
        if held.contains_key(element) {
            Some(held[element])
        } else {
            None
        },
        frame,
    )
}

/// The button events of an update, for the first `n` on/off elements in
/// reporting order.
pub open spec fn button_events(
    prev: InputState,
    current: InputState,
    held: Map<InputElement, u32>,
    frame: u32,
    n: int,
) -> Seq<InputEvent>
    decreases n,
{
    if n <= 0 {
        Seq::empty()
    } else {
        let earlier = button_events(prev, current, held, frame, n - 1);
        match element_event(prev, current, held, frame, n - 1) {
            Some(event) => earlier.push(event),
            None => earlier,
        }
    }
}

/// An update reports a button event exactly when one of the on/off elements
/// gives rise to it.
pub proof fn lemma_button_events_membership(
    prev: InputState,
    current: InputState,
    held: Map<InputElement, u32>,
    frame: u32,
    n: int,
    event: InputEvent,
)
    requires
        0 <= n,
    ensures
        button_events(prev, current, held, frame, n).contains(event) <==> exists|i: int|
            0 <= i < n && #[trigger] element_event(prev, current, held, frame, i) == Some(event),
    decreases n,
{
    let events = button_events(prev, current, held, frame, n);
    if n > 0 {
        lemma_button_events_membership(prev, current, held, frame, n - 1, event);
        let earlier = button_events(prev, current, held, frame, n - 1);
        if events.contains(event) {
            let at = choose|at: int| 0 <= at < events.len() && events[at] == event;
            if at < earlier.len() {
                assert(earlier[at] == event);
                assert(earlier.contains(event));
                let i = choose|i: int|
                    0 <= i < n - 1 && #[trigger] element_event(prev, current, held, frame, i)
                        == Some(event);
                assert(0 <= i < n && element_event(prev, current, held, frame, i) == Some(event));
            } else {
                assert(element_event(prev, current, held, frame, n - 1) == Some(event));
            }
        }
        if exists|i: int|
            0 <= i < n && #[trigger] element_event(prev, current, held, frame, i) == Some(event) {
            let i = choose|i: int|
                0 <= i < n && #[trigger] element_event(prev, current, held, frame, i) == Some(
                    event,
                );
            if i < n - 1 {
                assert(earlier.contains(event));
                let at = choose|at: int| 0 <= at < earlier.len() && earlier[at] == event;
                assert(events[at] == event);
            } else {
                assert(events[events.len() - 1] == event);
            }
        }
    }
}

/// The held-since table after an update: an element that went down is
/// recorded at the current update, an element that went up is forgotten, and
/// every other entry stays.
pub open spec fn held_after(
    prev: InputState,
    current: InputState,
    held: Map<InputElement, u32>,
    frame: u32,
) -> Map<InputElement, u32> {
    Map::new(
        |e: InputElement|
            if !prev.spec_get_button(&e) && current.spec_get_button(&e) {
                true
            } else if prev.spec_get_button(&e) && !current.spec_get_button(&e) {
                false
            } else {
                held.contains_key(e)
            },
        |e: InputElement|
            if !prev.spec_get_button(&e) && current.spec_get_button(&e) {
                frame
            } else {
                held[e]
            },
    )
}

/// The signed change of `element`'s value between two states.
pub open spec fn value_delta(prev: InputState, current: InputState, element: InputElement) -> int {
    current.spec_get_value(&element) as int - prev.spec_get_value(&element) as int
}

/// The `i`-th knob element: knobs 1 to 8, then the main encoder.
pub open spec fn knob_at(i: int) -> InputElement {
    InputElement::spec_from_index((65 + i) as u8)
}

/// The `i`-th audio element: microphone gain, headphone volume, master volume.
pub open spec fn audio_at(i: int) -> InputElement {
    InputElement::spec_from_index((83 + i) as u8)
}

/// The knob events of an update, for the first `n` knob elements: one event
/// for each knob whose value differs between the two states.
pub open spec fn knob_events(prev: InputState, current: InputState, n: int) -> Seq<InputEvent>
    decreases n,
{
    if n <= 0 {
        Seq::empty()
    } else {
        let element = knob_at(n - 1);
        let earlier = knob_events(prev, current, n - 1);
        if prev.spec_get_value(&element) != current.spec_get_value(&element) {
            earlier.push(
                InputEvent::KnobChanged {
                    element,
                    value: current.spec_get_value(&element),
                    delta: value_delta(prev, current, element) as i32,
                },
            )
        } else {
            earlier
        }
    }
}

/// The audio events of an update, for the first `n` audio elements.
pub open spec fn audio_events(prev: InputState, current: InputState, n: int) -> Seq<InputEvent>
    decreases n,
{
    if n <= 0 {
        Seq::empty()
    } else {
        let element = audio_at(n - 1);
        let earlier = audio_events(prev, current, n - 1);
        if prev.spec_get_value(&element) != current.spec_get_value(&element) {
            earlier.push(
                InputEvent::AudioChanged {
                    element,
                    value: current.spec_get_value(&element),
                    delta: value_delta(prev, current, element) as i32,
                },
            )
        } else {
            earlier
        }
    }
}

/// The value-change events of an update: knobs first, then audio controls.
pub open spec fn value_events(prev: InputState, current: InputState) -> Seq<InputEvent> {
    knob_events(prev, current, KNOB_COUNT as int) + audio_events(
        prev,
        current,
        AUDIO_COUNT as int,
    )
}

/// The event that one pad record gives rise to.
pub open spec fn pad_event(hit: PadHit) -> InputEvent {
    InputEvent::PadHit { pad_number: hit.pad_number, velocity: hit.data_a, pressure: hit.data_b }
}

/// The events of a pad packet: one per record, in wire order.
pub open spec fn pad_events(hits: Seq<PadHit>) -> Seq<InputEvent> {
    hits.map_values(|hit: PadHit| pad_event(hit))
}

/// The place in the reporting order of the on/off element at position `k`
/// of the declaration order; for any other position, a place past the end of
/// that order.
spec fn key_position(k: u8) -> int {
    if k < 65 {
        k as int
    } else if 74 <= k < 83 {
        k - 9
    } else {
        BUTTON_COUNT as int
    }
}

/// Whether the element at position `k` went from released to pressed.
#[verifier::opaque]
spec fn went_down(prev: InputState, current: InputState, k: u8) -> bool {
    let e = InputElement::spec_from_index(k);
    k < ELEMENT_COUNT && !prev.spec_get_button(&e) && current.spec_get_button(&e)
}

/// Whether the element at position `k` went from pressed to released.
#[verifier::opaque]
spec fn went_up(prev: InputState, current: InputState, k: u8) -> bool {
    let e = InputElement::spec_from_index(k);
    k < ELEMENT_COUNT && prev.spec_get_button(&e) && !current.spec_get_button(&e)
}

/// The held-since table over element positions after an update.
spec fn table_after(
    prev: InputState,
    current: InputState,
    table: Map<u8, u32>,
    frame: u32,
) -> Map<u8, u32> {
    Map::new(
        |k: u8|
            if went_down(prev, current, k) {
                true
            } else if went_up(prev, current, k) {
                false
            } else {
                table.contains_key(k)
            },
        |k: u8|
            if went_down(prev, current, k) {
                frame
            } else {
                table[k]
            },
    )
}

/// Going down and going up, read at an element's own position, speak of
/// that element.
proof fn lemma_went(prev: InputState, current: InputState, e: InputElement)
    ensures
        went_down(prev, current, e.spec_index()) == (!prev.spec_get_button(&e)
            && current.spec_get_button(&e)),
        went_up(prev, current, e.spec_index()) == (prev.spec_get_button(&e)
            && !current.spec_get_button(&e)),
{
    reveal(went_down);
    reveal(went_up);
    lemma_index_is_a_bijection(e, e);
}

/// A position outside the reporting order belongs to no on/off element, so
/// nothing goes down or up there.
proof fn lemma_key_outside_order(prev: InputState, current: InputState, k: u8)
    requires
        key_position(k) >= BUTTON_COUNT,
    ensures
        !went_down(prev, current, k),
        !went_up(prev, current, k),
{
    reveal(went_down);
    reveal(went_up);
    if k < ELEMENT_COUNT {
        lemma_from_index(k);
    }
}

/// The table over positions stands for the table over elements, before and
/// after an update.
proof fn lemma_table_after(prev: InputState, current: InputState, table: Map<u8, u32>, frame: u32)
    ensures
        held_by_element(table_after(prev, current, table, frame)) =~= held_after(
            prev,
            current,
            held_by_element(table),
            frame,
        ),
{
    let lhs = held_by_element(table_after(prev, current, table, frame));
    let rhs = held_after(prev, current, held_by_element(table), frame);
    assert forall|e: InputElement| #[trigger]
        lhs.dom().contains(e) == rhs.dom().contains(e) && (rhs.dom().contains(e) ==> lhs[e]
            == rhs[e]) by {
        lemma_went(prev, current, e);
    }
}

/// The update recorded for position `k` of a held-since table, if any.
spec fn held_since(table: Map<u8, u32>, k: u8) -> Option<u32> {
    if table.contains_key(k) {
        Some(table[k])
    } else {
        None
    }
}

/// One step of the walk over the on/off elements: once the `i`-th element
/// is handled, the table agrees with the table after the update on the
/// first `i + 1` elements and with the table before it on the rest.
proof fn lemma_button_step(
    prev: InputState,
    current: InputState,
    table_before: Map<u8, u32>,
    table_then: Map<u8, u32>,
    table_now: Map<u8, u32>,
    frame: u32,
    i: int,
)
    requires
        0 <= i < BUTTON_COUNT,
        forall|k: u8|
            key_position(k) < i ==> (#[trigger] table_then.contains_key(k) <==> table_after(
                prev,
                current,
                table_before,
                frame,
            ).contains_key(k)) && (table_after(prev, current, table_before, frame).contains_key(k)
                ==> table_then[k] == table_after(prev, current, table_before, frame)[k]),
        forall|k: u8|
            key_position(k) >= i ==> (#[trigger] table_then.contains_key(k)
                <==> table_before.contains_key(k)) && (table_before.contains_key(k)
                ==> table_then[k] == table_before[k]),
        ({
            let element = InputElement::spec_button_at(i);
            let down_before = prev.spec_get_button(&element);
            let down_now = current.spec_get_button(&element);
            table_now == (if !down_before && down_now {
                table_then.insert(element.spec_index(), frame)
            } else if down_before && !down_now {
                table_then.remove(element.spec_index())
            } else {
                table_then
            })
        }),
    ensures
        forall|k: u8|
            key_position(k) < i + 1 ==> (#[trigger] table_now.contains_key(k) <==> table_after(
                prev,
                current,
                table_before,
                frame,
            ).contains_key(k)) && (table_after(prev, current, table_before, frame).contains_key(k)
                ==> table_now[k] == table_after(prev, current, table_before, frame)[k]),
        forall|k: u8|
            key_position(k) >= i + 1 ==> (#[trigger] table_now.contains_key(k)
                <==> table_before.contains_key(k)) && (table_before.contains_key(k)
                ==> table_now[k] == table_before[k]),
{
    let element = InputElement::spec_button_at(i);
    let key = element.spec_index();
    let target = table_after(prev, current, table_before, frame);
    lemma_went(prev, current, element);
    lemma_button_at(i);
    assert(key_position(key) == i);
    assert(table_then.contains_key(key) <==> table_before.contains_key(key));
    assert forall|k: u8| key_position(k) < i + 1 implies (#[trigger] table_now.contains_key(k)
        <==> target.contains_key(k)) && (target.contains_key(k) ==> table_now[k] == target[k]) by {
        if k != key {
            assert(table_then.contains_key(k) <==> target.contains_key(k));
        }
    }
    assert forall|k: u8| key_position(k) >= i + 1 implies (#[trigger] table_now.contains_key(k)
        <==> table_before.contains_key(k)) && (table_before.contains_key(k) ==> table_now[k]
        == table_before[k]) by {
        assert(table_then.contains_key(k) <==> table_before.contains_key(k));
    }
}

impl TrackerState {
    /// The state of a tracker that has seen no update.
    pub open spec fn initial() -> TrackerState {
        TrackerState { previous: None, held: Map::empty(), frame_count: 0, first_update: true }
    }

    /// The state that an update is compared against: the previous state, or
    /// the resting state before the first update.
    pub open spec fn baseline(self) -> InputState {
        match self.previous {
            Some(s) => s,
            None => InputState::spec_default(),
        }
    }

    /// The events that an update with `current` emits: button events first,
    /// then value changes. The first update emits no value changes.
    pub open spec fn update_events(self, current: InputState) -> Seq<InputEvent> {
        let frame = (self.frame_count + 1) as u32;
        let buttons = button_events(
            self.baseline(),
            current,
            self.held,
            frame,
            BUTTON_COUNT as int,
        );
        if self.first_update {
            buttons
        } else {
            buttons + value_events(self.baseline(), current)
        }
    }

    /// Whether the held table matches the latest state: an element is
    /// recorded as held exactly when it is set in the state that the next
    /// update is compared against, and no record is later than the latest
    /// update.
    pub open spec fn held_matches_state(self) -> bool {
        &&& forall|e: InputElement| #[trigger]
            self.held.contains_key(e) <==> self.baseline().spec_get_button(&e)
        &&& forall|e: InputElement| #[trigger]
            self.held.contains_key(e) ==> self.held[e] <= self.frame_count
    }

    /// The state after an update with `current`.
    pub open spec fn updated(self, current: InputState) -> TrackerState {
        let frame = (self.frame_count + 1) as u32;
        TrackerState {
            previous: Some(current),
            held: held_after(self.baseline(), current, self.held, frame),
            frame_count: frame,
            first_update: false,
        }
    }
}

/// The held table matches the latest state in every tracker that started
/// fresh: it does so before the first update, and an update keeps it so.
/// After an update an element is recorded as held exactly when it is set in
/// the state given, and an element that just went down is recorded at that
/// update.
pub proof fn lemma_held_matches_state(tracker: TrackerState, current: InputState)
    requires
        tracker.held_matches_state(),
        tracker.frame_count < u32::MAX,
    ensures
        TrackerState::initial().held_matches_state(),
        tracker.updated(current).held_matches_state(),
        forall|e: InputElement| #[trigger]
            tracker.updated(current).held.contains_key(e) <==> current.spec_get_button(&e),
        forall|e: InputElement|
            !tracker.baseline().spec_get_button(&e) && current.spec_get_button(&e)
                ==> #[trigger] tracker.updated(current).held[e] == tracker.frame_count + 1,
{
    let after = tracker.updated(current);
    assert forall|e: InputElement| #[trigger]
        after.held.contains_key(e) <==> current.spec_get_button(&e) by {
        assert(tracker.held.contains_key(e) <==> tracker.baseline().spec_get_button(&e));
    }
    assert forall|e: InputElement| #[trigger] after.held.contains_key(e) implies after.held[e]
        <= after.frame_count by {
        if tracker.held.contains_key(e) {
            assert(tracker.held[e] <= tracker.frame_count);
        }
    }
    assert(after.baseline() == current);
}

/// Button events are press, release and hold events only.
pub proof fn lemma_button_events_are_button_events(
    prev: InputState,
    current: InputState,
    held: Map<InputElement, u32>,
    frame: u32,
    n: int,
)
    ensures
        forall|i: int|
            0 <= i < button_events(prev, current, held, frame, n).len() ==> (#[trigger] button_events(
                prev,
                current,
                held,
                frame,
                n,
            )[i]).is_button_event(),
    decreases n,
{
    if n > 0 {
        lemma_button_events_are_button_events(prev, current, held, frame, n - 1);
        let earlier = button_events(prev, current, held, frame, n - 1);
        let events = button_events(prev, current, held, frame, n);
        assert forall|i: int| 0 <= i < events.len() implies (#[trigger] events[i]).is_button_event() by {
            if i < earlier.len() {
                assert(events[i] == earlier[i]);
            }
        }
    }
}

/// The position in the declaration order up to which the first `n` on/off
/// elements reach.
pub open spec fn button_bound(n: int) -> int {
    if n <= 65 {
        n
    } else {
        n + 9
    }
}

/// Button events come in ascending declaration order of their elements, at
/// most one per element.
pub proof fn lemma_button_events_in_order(
    prev: InputState,
    current: InputState,
    held: Map<InputElement, u32>,
    frame: u32,
    n: int,
)
    requires
        0 <= n <= BUTTON_COUNT,
    ensures
        in_element_order(button_events(prev, current, held, frame, n), button_bound(n)),
    decreases n,
{
    if n > 0 {
        lemma_button_events_in_order(prev, current, held, frame, n - 1);
        lemma_button_at(n - 1);
        let earlier = button_events(prev, current, held, frame, n - 1);
        let events = button_events(prev, current, held, frame, n);
        assert forall|i: int| 0 <= i < events.len() implies (#[trigger] events[i]).element_index()
            < button_bound(n) by {
            if i < earlier.len() {
                assert(events[i] == earlier[i]);
            }
        }
        assert forall|i: int, j: int| 0 <= i < j < events.len() implies (
        #[trigger] events[i]).element_index() < (#[trigger] events[j]).element_index() by {
            assert(events[i] == earlier[i]);
            if j < earlier.len() {
                assert(events[j] == earlier[j]);
            }
        }
    }
}

/// Knob events come in ascending declaration order of their knobs, at most
/// one per knob, and are value events.
pub proof fn lemma_knob_events_in_order(prev: InputState, current: InputState, n: int)
    requires
        0 <= n <= KNOB_COUNT,
    ensures
        in_element_order(knob_events(prev, current, n), 65 + n),
        forall|i: int|
            0 <= i < knob_events(prev, current, n).len() ==> (#[trigger] knob_events(
                prev,
                current,
                n,
            )[i]).is_value_event() && knob_events(prev, current, n)[i].element_index() >= 65,
    decreases n,
{
    if n > 0 {
        lemma_knob_events_in_order(prev, current, n - 1);
        lemma_from_index((65 + n - 1) as u8);
        let earlier = knob_events(prev, current, n - 1);
        let events = knob_events(prev, current, n);
        assert forall|i: int| 0 <= i < events.len() implies (#[trigger] events[i]).element_index()
            < 65 + n && events[i].is_value_event() && events[i].element_index() >= 65 by {
            if i < earlier.len() {
                assert(events[i] == earlier[i]);
            }
        }
        assert forall|i: int, j: int| 0 <= i < j < events.len() implies (
        #[trigger] events[i]).element_index() < (#[trigger] events[j]).element_index() by {
            assert(events[i] == earlier[i]);
            if j < earlier.len() {
                assert(events[j] == earlier[j]);
            }
        }
    }
}

/// Audio events come in ascending declaration order of their controls, at
/// most one per control, and are value events.
pub proof fn lemma_audio_events_in_order(prev: InputState, current: InputState, n: int)
    requires
        0 <= n <= AUDIO_COUNT,
    ensures
        in_element_order(audio_events(prev, current, n), 83 + n),
        forall|i: int|
            0 <= i < audio_events(prev, current, n).len() ==> (#[trigger] audio_events(
                prev,
                current,
                n,
            )[i]).is_value_event() && audio_events(prev, current, n)[i].element_index() >= 83,
    decreases n,
{
    if n > 0 {
        lemma_audio_events_in_order(prev, current, n - 1);
        lemma_from_index((83 + n - 1) as u8);
        let earlier = audio_events(prev, current, n - 1);
        let events = audio_events(prev, current, n);
        assert forall|i: int| 0 <= i < events.len() implies (#[trigger] events[i]).element_index()
            < 83 + n && events[i].is_value_event() && events[i].element_index() >= 83 by {
            if i < earlier.len() {
                assert(events[i] == earlier[i]);
            }
        }
        assert forall|i: int, j: int| 0 <= i < j < events.len() implies (
        #[trigger] events[i]).element_index() < (#[trigger] events[j]).element_index() by {
            assert(events[i] == earlier[i]);
            if j < earlier.len() {
                assert(events[j] == earlier[j]);
            }
        }
    }
}

/// The events of an update are ordered: button events come before value
/// changes, and within each of the two groups the events follow the
/// declaration order of their elements, at most one event per element.
pub proof fn lemma_update_events_are_ordered(tracker: TrackerState, current: InputState)
    ensures
        ({
            let events = tracker.update_events(current);
            &&& forall|i: int, j: int|
                0 <= i < j < events.len() && (#[trigger] events[i]).is_value_event() ==> (
                #[trigger] events[j]).is_value_event()
            &&& forall|i: int, j: int|
                0 <= i < j < events.len() && (#[trigger] events[i]).is_button_event() == (
                #[trigger] events[j]).is_button_event() ==> events[i].element_index()
                    < events[j].element_index()
        }),
{
    let prev = tracker.baseline();
    let frame = (tracker.frame_count + 1) as u32;
    let buttons = button_events(prev, current, tracker.held, frame, BUTTON_COUNT as int);
    let knobs = knob_events(prev, current, KNOB_COUNT as int);
    let audio = audio_events(prev, current, AUDIO_COUNT as int);
    let events = tracker.update_events(current);
    lemma_button_events_are_button_events(prev, current, tracker.held, frame, BUTTON_COUNT as int);
    lemma_button_events_in_order(prev, current, tracker.held, frame, BUTTON_COUNT as int);
    lemma_knob_events_in_order(prev, current, KNOB_COUNT as int);
    lemma_audio_events_in_order(prev, current, AUDIO_COUNT as int);
    assert forall|i: int| 0 <= i < events.len() implies (if i < buttons.len() {
        events[i] == buttons[i]
    } else if i < buttons.len() + knobs.len() {
        events[i] == knobs[i - buttons.len()]
    } else {
        events[i] == audio[i - buttons.len() - knobs.len()]
    }) by {}
    assert forall|i: int, j: int|
        0 <= i < j < events.len() && (#[trigger] events[i]).is_value_event() implies (
    #[trigger] events[j]).is_value_event() by {
        if i < buttons.len() {
            assert(buttons[i].is_button_event());
        }
    }
    assert forall|i: int, j: int|
        0 <= i < j < events.len() && (#[trigger] events[i]).is_button_event() == (
        #[trigger] events[j]).is_button_event() implies events[i].element_index()
        < events[j].element_index() by {
        if j < buttons.len() {
        } else if i < buttons.len() {
            assert(buttons[i].is_button_event());
        } else if j < buttons.len() + knobs.len() {
        } else if i < buttons.len() + knobs.len() {
            assert(knobs[i - buttons.len()].element_index() < 65 + KNOB_COUNT);
            assert(audio[j - buttons.len() - knobs.len()].element_index() >= 83);
        } else {
        }
    }
}

impl View for InputTracker {
    type V = TrackerState;

    closed spec fn view(&self) -> TrackerState {
        TrackerState {
            previous: self.previous_state,
            held: held_by_element(self.held_buttons@),
            frame_count: self.frame_count,
            first_update: self.is_first_update,
        }
    }
}

impl Clone for InputTracker {
    fn clone(&self) -> (t: Self)
        ensures
            t@.previous == self@.previous,
            t@.held =~= self@.held,
            t@.frame_count == self@.frame_count,
            t@.first_update == self@.first_update,
            self@.held_matches_state() ==> t@.held_matches_state(),
    {
        Self {
            previous_state: self.previous_state,
            held_buttons: self.held_buttons.clone(),
            frame_count: self.frame_count,
            is_first_update: self.is_first_update,
        }
    }
}

impl InputTracker {
    /// A tracker that has seen no update.
    pub fn new() -> (t: Self)
        ensures
            t@.previous == TrackerState::initial().previous,
            t@.held =~= TrackerState::initial().held,
            t@.frame_count == TrackerState::initial().frame_count,
            t@.first_update == TrackerState::initial().first_update,
            t@.held_matches_state(),
    {
        Self {
            previous_state: None,
            held_buttons: HashMap::new(),
            frame_count: 0,
            is_first_update: true,
        }
    }

    /// Number of updates so far.
    pub fn frame_count(&self) -> (n: u32)
        ensures
            n == self@.frame_count,
    {
        self.frame_count
    }

    /// Feeds a new input state to the tracker and returns the events it
    /// gives rise to: button events in reporting order, then value changes.
    ///
    /// The first update compares against the resting state and reports no
    /// value changes, whatever values the hardware reports at rest.
    pub fn update(&mut self, current_state: InputState) -> (events: Vec<InputEvent>)
        requires
            old(self)@.frame_count < u32::MAX,
        ensures
            events@ == old(self)@.update_events(current_state),
            final(self)@.previous == old(self)@.updated(current_state).previous,
            final(self)@.held =~= old(self)@.updated(current_state).held,
            final(self)@.frame_count == old(self)@.updated(current_state).frame_count,
            final(self)@.first_update == old(self)@.updated(current_state).first_update,
            old(self)@.first_update ==> forall|i: int|
                0 <= i < events@.len() ==> !(#[trigger] events@[i]).is_value_event(),
            old(self)@.held_matches_state() ==> final(self)@.held_matches_state(),
    {
        let mut events: Vec<InputEvent> = Vec::new();
        self.frame_count = self.frame_count + 1;

        let prev_state = match self.previous_state {
            Some(s) => s,
            None => InputState::default(),
        };
        let ghost held_before = held_by_element(self.held_buttons@);

        // Check button events
        Self::check_button_events_static(
            &mut events,
            &prev_state,
            &current_state,
            &mut self.held_buttons,
            self.frame_count,
        );
        proof {
            lemma_button_events_are_button_events(
                prev_state,
                current_state,
                held_before,
                self.frame_count,
                BUTTON_COUNT as int,
            );
        }

        // The first update reports no value changes: the hardware may rest at
        // any value.
        if !self.is_first_update {
            Self::check_value_events_static(&mut events, &prev_state, &current_state);
        }
        self.previous_state = Some(current_state);
        self.is_first_update = false;
        proof {
            if old(self)@.held_matches_state() {
                lemma_held_matches_state(old(self)@, current_state);
                assert(self@.held =~= old(self)@.updated(current_state).held);
            }
        }
        events
    }

    /// Turns the records of a pad packet into events, one per record, in wire
    /// order. Pads carry no state from one packet to the next.
    pub fn update_pads(&mut self, pad_state: PadState) -> (events: Vec<InputEvent>)
        ensures
            events@ == pad_events(pad_state.hits@),
            final(self)@ == old(self)@,
    {
        let mut events: Vec<InputEvent> = Vec::new();
        let mut i: usize = 0;
        while i < pad_state.hits.len()
            invariant
                i <= pad_state.hits@.len(),
                events@ == pad_events(pad_state.hits@.take(i as int)),
            decreases pad_state.hits@.len() - i,
        {
            let hit = pad_state.hits[i];
            events.push(
                InputEvent::PadHit {
                    pad_number: hit.pad_number,
                    velocity: hit.data_a,
                    pressure: hit.data_b,
                },
            );
            i = i + 1;
        }
        proof {
            assert(pad_state.hits@.take(i as int) =~= pad_state.hits@);
        }
        events
    }

    /// Reports what one on/off element did since the previous state and
    /// keeps the held-since table up to date for it.
    fn check_button(
        events: &mut Vec<InputEvent>,
        held_buttons: &mut HashMap<u8, u32>,
        element: InputElement,
        was_pressed: bool,
        is_pressed: bool,
        frame_count: u32,
    )
        ensures
            final(events)@ == match button_event(
                element,
                was_pressed,
                is_pressed,
                held_since(old(held_buttons)@, element.spec_index()),
                frame_count,
            ) {
                Some(event) => old(events)@.push(event),
                None => old(events)@,
            },
            final(held_buttons)@ == (if !was_pressed && is_pressed {
                old(held_buttons)@.insert(element.spec_index(), frame_count)
            } else if was_pressed && !is_pressed {
                old(held_buttons)@.remove(element.spec_index())
            } else {
                old(held_buttons)@
            }),
    {
        let key = element.index();
        if !was_pressed && is_pressed {
            events.push(InputEvent::ButtonPressed(element));
            held_buttons.insert(key, frame_count);
        } else if was_pressed && !is_pressed {
            events.push(InputEvent::ButtonReleased(element));
            held_buttons.remove(&key);
        } else if was_pressed && is_pressed {
            if let Some(since) = held_buttons.get(&key) {
                if frame_count >= *since && frame_count - *since >= HELD_THRESHOLD {
                    events.push(InputEvent::ButtonHeld(element));
                }
            }
        }
    }

    fn check_button_events_static(
        events: &mut Vec<InputEvent>,
        prev: &InputState,
        current: &InputState,
        held_buttons: &mut HashMap<u8, u32>,
        frame_count: u32,
    )
        ensures
            final(events)@ == old(events)@ + button_events(
                *prev,
                *current,
                held_by_element(old(held_buttons)@),
                frame_count,
                BUTTON_COUNT as int,
            ),
            held_by_element(final(held_buttons)@) =~= held_after(
                *prev,
                *current,
                held_by_element(old(held_buttons)@),
                frame_count,
            ),
    {
        let ghost table_before = old(held_buttons)@;
        let ghost held_before = held_by_element(table_before);
        let ghost table_target = table_after(*prev, *current, table_before, frame_count);
        let mut i: u8 = 0;
        while i < BUTTON_COUNT
            invariant
                i <= BUTTON_COUNT,
                held_before == held_by_element(table_before),
                table_target == table_after(*prev, *current, table_before, frame_count),
                events@ == old(events)@ + button_events(
                    *prev,
                    *current,
                    held_before,
                    frame_count,
                    i as int,
                ),
                forall|k: u8|
                    key_position(k) < i ==> (#[trigger] held_buttons@.contains_key(k)
                        <==> table_target.contains_key(k)) && (table_target.contains_key(k)
                        ==> held_buttons@[k] == table_target[k]),
                forall|k: u8|
                    key_position(k) >= i ==> (#[trigger] held_buttons@.contains_key(k)
                        <==> table_before.contains_key(k)) && (table_before.contains_key(k)
                        ==> held_buttons@[k] == table_before[k]),
            decreases BUTTON_COUNT - i,
        {
            let element = InputElement::button_at(i);
            let prev_pressed = prev.get_button(&element);
            let current_pressed = current.get_button(&element);
            let ghost table_then = held_buttons@;
            let ghost events_then = events@;
            Self::check_button(
                events,
                held_buttons,
                element,
                prev_pressed,
                current_pressed,
                frame_count,
            );
            proof {
                lemma_button_step(
                    *prev,
                    *current,
                    table_before,
                    table_then,
                    held_buttons@,
                    frame_count,
                    i as int,
                );
                assert(events@ == old(events)@ + button_events(
                    *prev,
                    *current,
                    held_before,
                    frame_count,
                    i + 1,
                )) by {
                    let earlier = button_events(*prev, *current, held_before, frame_count, i as int);
                    assert(events_then == old(events)@ + earlier);
                    assert(held_since(table_then, element.spec_index()) == (if held_before.contains_key(
                        element,
                    ) {
                        Some(held_before[element])
                    } else {
                        None
                    }));
                    assert((old(events)@ + earlier).push(InputEvent::ButtonPressed(element)) =~= old(
                        events,
                    )@ + earlier.push(InputEvent::ButtonPressed(element)));
                    assert((old(events)@ + earlier).push(InputEvent::ButtonReleased(element)) =~= old(
                        events,
                    )@ + earlier.push(InputEvent::ButtonReleased(element)));
                    assert((old(events)@ + earlier).push(InputEvent::ButtonHeld(element)) =~= old(
                        events,
                    )@ + earlier.push(InputEvent::ButtonHeld(element)));
                }
            }
            i = i + 1;
        }
        proof {
            assert(held_buttons@ =~= table_target) by {
                assert forall|k: u8| #[trigger]
                    held_buttons@.dom().contains(k) == table_target.dom().contains(k) && (
                    table_target.dom().contains(k) ==> held_buttons@[k] == table_target[k]) by {
                    if key_position(k) >= BUTTON_COUNT {
                        assert(held_buttons@.contains_key(k) <==> table_before.contains_key(k));
                        lemma_key_outside_order(*prev, *current, k);
                    } else {
                        assert(held_buttons@.contains_key(k) <==> table_target.contains_key(k));
                    }
                }
            }
            lemma_table_after(*prev, *current, table_before, frame_count);
        }
    }

    fn check_value_events_static(
        events: &mut Vec<InputEvent>,
        prev: &InputState,
        current: &InputState,
    )
        ensures
            final(events)@ == old(events)@ + value_events(*prev, *current),
    {
        let mut i: u8 = 0;
        while i < KNOB_COUNT
            invariant
                i <= KNOB_COUNT,
                events@ == old(events)@ + knob_events(*prev, *current, i as int),
            decreases KNOB_COUNT - i,
        {
            let element = InputElement::from_index(65 + i);
            let prev_value = prev.get_value(&element);
            let current_value = current.get_value(&element);
            if prev_value != current_value {
                let delta: i32 = current_value as i32 - prev_value as i32;
                events.push(InputEvent::KnobChanged { element, value: current_value, delta });
            }
            i = i + 1;
        }
        let ghost after_knobs = events@;
        let mut j: u8 = 0;
        while j < AUDIO_COUNT
            invariant
                j <= AUDIO_COUNT,
                after_knobs == old(events)@ + knob_events(*prev, *current, KNOB_COUNT as int),
                events@ == after_knobs + audio_events(*prev, *current, j as int),
            decreases AUDIO_COUNT - j,
        {
            let element = InputElement::from_index(83 + j);
            let prev_value = prev.get_value(&element);
            let current_value = current.get_value(&element);
            if prev_value != current_value {
                let delta: i32 = current_value as i32 - prev_value as i32;
                events.push(InputEvent::AudioChanged { element, value: current_value, delta });
            }
            j = j + 1;
        }
    }

    /// Whether `element` is pressed in the latest state without being
    /// recorded as held.
    pub fn was_pressed(&self, element: &InputElement) -> (b: bool)
        ensures
            b == (self@.previous matches Some(s) && s.spec_get_button(element)
                && !self@.held.contains_key(*element)),
            self@.held_matches_state() ==> !b,
    {
        if let Some(ref current) = self.previous_state {
            current.get_button(element) && !self.held_buttons.contains_key(&element.index())
        } else {
            false
        }
    }

    /// Whether `element` is recorded as held down.
    pub fn is_held(&self, element: &InputElement) -> (b: bool)
        ensures
            b == self@.held.contains_key(*element),
    {
        self.held_buttons.contains_key(&element.index())
    }

    /// Whether `element` is released in the latest state while still
    /// recorded as held.
    pub fn was_released(&self, element: &InputElement) -> (b: bool)
        ensures
            b == (self@.previous matches Some(s) && !s.spec_get_button(element)
                && self@.held.contains_key(*element)),
            self@.held_matches_state() ==> !b,
    {
        if let Some(ref current) = self.previous_state {
            !current.get_button(element) && self.held_buttons.contains_key(&element.index())
        } else {
            false
        }
    }
}

impl Default for InputTracker {
    fn default() -> (t: Self)
        ensures
            t@.previous == TrackerState::initial().previous,
            t@.held =~= TrackerState::initial().held,
            t@.frame_count == TrackerState::initial().frame_count,
            t@.first_update == TrackerState::initial().first_update,
            t@.held_matches_state(),
    {
        Self::new()
    }
}

} // verus!
