use vstd::prelude::*;

use fxhash::FxHashMap;

use super::ecodes;
use super::rotate::CoordinatePart;
use super::{AxisMapping, Finger, MultitouchEvent, RawInputEvent};
use crate::geometry::Point2;

verus! {

#[verifier::external_type_specification]
#[verifier::external_body]
pub struct ExFxHasher(fxhash::FxHasher);

#[verifier::external_type_specification]
#[verifier::external_body]
#[verifier::reject_recursive_types(H)]
pub struct ExBuildHasherDefault<H>(std::hash::BuildHasherDefault<H>);

/// The fingers on the touchscreen, keyed by their slot.
pub type Fingers = FxHashMap<i32, Finger>;

/// The fingers on the touchscreen, keyed by their slot, and the slot that
/// the next axis reports are about.
pub struct MultitouchState {
    pub fingers: Fingers,
    pub current_slot: i32,
}

/// `order` lists every entry of `m` exactly once.
pub open spec fn is_listing(order: Seq<(i32, Finger)>, m: Map<i32, Finger>) -> bool {
    &&& forall|i: int|
        0 <= i < order.len() ==> m.contains_key(#[trigger] order[i].0) && m[order[i].0]
            == order[i].1
    &&& forall|i: int, j: int|
        0 <= i < order.len() && 0 <= j < order.len() && i != j ==> #[trigger] order[i].0
            != #[trigger] order[j].0
    &&& forall|k: i32| m.contains_key(k) ==> exists|i: int| 0 <= i < order.len() && #[trigger] order[i].0 == k
}

/// `FxHashMap::default()` (std's `HashMap` with fxhash's hasher): an empty map.
#[verifier::external_body]
fn fingers_empty() -> (m: Fingers)
    ensures
        (m@ == Map::<i32, Finger>::empty()),
{
    FxHashMap::default()
}

/// `HashMap::get` on fxhash's `FxHashMap`: the finger in `slot`, if there is one.
#[verifier::external_body]
fn fingers_get(m: &Fingers, slot: i32) -> (r: Option<Finger>)
    ensures
        r == if m@.contains_key(slot) {
            Some(m@[slot])
        } else {
            None::<Finger>
        },
{
    m.get(&slot).copied()
}

/// `HashMap::insert` on fxhash's `FxHashMap`: `slot` now holds `f`.
#[verifier::external_body]
fn fingers_insert(m: &mut Fingers, slot: i32, f: Finger)
    ensures
        final(m)@ == old(m)@.insert(slot, f),
{
    m.insert(slot, f);
}

/// `HashMap::iter` on fxhash's `FxHashMap`, copied out: every entry exactly
/// once, in the order in which the map walks them (which it does not fix).
#[verifier::external_body]
fn fingers_entries(m: &Fingers) -> (v: Vec<(i32, Finger)>)
    ensures
        is_listing(v@, m@),
{
    m.iter().map(|(slot, finger)| (*slot, *finger)).collect()
}

impl Default for MultitouchState {
    /// No finger seen, slot 0.
    fn default() -> (s: MultitouchState)
        ensures
            s.fingers@ == Map::<i32, Finger>::empty(),
            s.current_slot == 0,
    {
        MultitouchState { fingers: fingers_empty(), current_slot: 0 }
    }
}

/// The finger in `slot`, or a fresh one.
pub open spec fn spec_entry(m: Map<i32, Finger>, slot: i32) -> Finger {
    if m.contains_key(slot) {
        m[slot]
    } else {
        Finger::spec_default()
    }
}

/// What a sync report announces about `f`: a press when it went down, a
/// release when it went up, a move when it stayed down and moved.
pub open spec fn report_event(f: Finger) -> Option<MultitouchEvent> {
    if !f.last_pressed && f.pressed {
        Some(MultitouchEvent::Press { finger: Finger { last_pressed: f.pressed, ..f } })
    } else if f.last_pressed && !f.pressed {
        Some(MultitouchEvent::Release { finger: Finger { last_pressed: f.pressed, ..f } })
    } else if f.last_pressed && f.pressed && f.pos_updated {
        Some(MultitouchEvent::Move { finger: f })
    } else {
        None
    }
}

/// `f` after a sync report: its press state is taken as reported, its
/// motion as announced.
pub open spec fn report_update(f: Finger) -> Finger {
    Finger { last_pressed: f.pressed, pos_updated: false, ..f }
}

/// The events of a sync report for the fingers in the order given.
pub open spec fn report_events(order: Seq<(i32, Finger)>) -> Seq<MultitouchEvent>
    decreases order.len(),
{
    if order.len() == 0 {
        Seq::empty()
    } else {
        let rest = report_events(order.drop_last());
        match report_event(order.last().1) {
            Some(e) => rest.push(e),
            None => rest,
        }
    }
}

/// The fingers after a sync report.
pub open spec fn spec_after_report(m: Map<i32, Finger>) -> Map<i32, Finger> {
    m.map_values(|f: Finger| report_update(f))
}

/// The finger of `slot` after the position report `seg`.
pub open spec fn spec_positioned(f: Finger, mapping: AxisMapping, seg: CoordinatePart) -> Finger {
    match mapping.spec_map(seg) {
        CoordinatePart::X(x) => Finger { pos: Point2 { x, ..f.pos }, pos_updated: true, ..f },
        CoordinatePart::Y(y) => Finger { pos: Point2 { y, ..f.pos }, pos_updated: true, ..f },
    }
}

pub open spec fn is_report(ev: RawInputEvent) -> bool {
    ev.event_type == ecodes::EV_SYN && ev.code == ecodes::SYN_REPORT
}

/// The fingers after any event but a sync report.
pub open spec fn spec_next_fingers(
    m: Map<i32, Finger>,
    slot: i32,
    ev: RawInputEvent,
    mapping: AxisMapping,
) -> Map<i32, Finger> {
    let f = spec_entry(m, slot);
    if ev.event_type == ecodes::EV_ABS {
        if ev.code == ecodes::ABS_MT_POSITION_X {
            m.insert(slot, spec_positioned(f, mapping, CoordinatePart::X(ev.value as u16)))
        } else if ev.code == ecodes::ABS_MT_POSITION_Y {
            m.insert(slot, spec_positioned(f, mapping, CoordinatePart::Y(ev.value as u16)))
        } else if ev.code == ecodes::ABS_MT_PRESSURE {
            if ev.value > 0 {
                m.insert(slot, Finger { pressed: true, ..f })
            } else {
                m
            }
        } else if ev.code == ecodes::ABS_MT_TRACKING_ID {
            if ev.value == -1 {
                m.insert(slot, Finger { pressed: false, ..f })
            } else {
                m.insert(slot, Finger { tracking_id: ev.value, ..f })
            }
        } else {
            m
        }
    } else {
        m
    }
}

/// The slot after `ev`.
pub open spec fn spec_next_slot(slot: i32, ev: RawInputEvent) -> i32 {
    if ev.event_type == ecodes::EV_ABS && ev.code == ecodes::ABS_MT_SLOT {
        ev.value
    } else {
        slot
    }
}

/// The mapping can take a position report of `ev`.
pub open spec fn position_fits(ev: RawInputEvent, mapping: AxisMapping) -> bool {
    &&& (ev.event_type == ecodes::EV_ABS && ev.code == ecodes::ABS_MT_POSITION_X) ==> mapping.fits(
        CoordinatePart::X(ev.value as u16),
    )
    &&& (ev.event_type == ecodes::EV_ABS && ev.code == ecodes::ABS_MT_POSITION_Y) ==> mapping.fits(
        CoordinatePart::Y(ev.value as u16),
    )
}

/// The finger of `slot`, or a fresh one.
fn entry(m: &Fingers, slot: i32) -> (f: Finger)
    ensures
        f == spec_entry(m@, slot),
{
    match fingers_get(m, slot) {
        Some(f) => f,
        None => Finger::default(),
    }
}

/// Decodes one event of the touchscreen. Axis reports update the finger in
/// the current slot; a sync report announces, for each finger in the order
/// the map walks them, its press, release or move, and takes note of it.
pub fn decode(ev: &RawInputEvent, state: &mut MultitouchState, mapping: &AxisMapping) -> (r: Vec<MultitouchEvent>)
    requires
        position_fits(*ev, *mapping),
    ensures
        final(state).current_slot == spec_next_slot(old(state).current_slot, *ev),
        is_report(*ev) ==> final(state).fingers@ == spec_after_report(old(state).fingers@)
            && exists|order: Seq<(i32, Finger)>|
            is_listing(order, old(state).fingers@) && r@ == report_events(order),
        !is_report(*ev) ==> r@ == Seq::<MultitouchEvent>::empty() && final(state).fingers@
            == spec_next_fingers(old(state).fingers@, old(state).current_slot, *ev, *mapping),
{
    let current_slot = state.current_slot;
    if ev.event_type == ecodes::EV_SYN {
        if ev.code == ecodes::SYN_REPORT {
            let entries = fingers_entries(&state.fingers);
            let ghost old_fingers = state.fingers@;
            let mut events: Vec<MultitouchEvent> = Vec::new();
            let n = entries.len();
            for i in 0..n
                invariant
                    n == entries@.len(),
                    is_listing(entries@, old_fingers),
                    events@ == report_events(entries@.take(i as int)),
                    state.current_slot == current_slot,
                    state.fingers@.dom() == old_fingers.dom(),
                    forall|k: i32|
                        #![trigger state.fingers@[k]]
                        old_fingers.contains_key(k) ==> state.fingers@[k] == if exists|j: int|
                            0 <= j < i && entries@[j].0 == k {
                            report_update(old_fingers[k])
                        } else {
                            old_fingers[k]
                        },
            {
                let (slot, finger) = entries[i];
                let ghost before = state.fingers@;
                let event = if !finger.last_pressed && finger.pressed {
                    // Pressed
                    Some(MultitouchEvent::Press { finger: Finger { last_pressed: finger.pressed, ..finger } })
                } else if finger.last_pressed && !finger.pressed {
                    // Released
                    Some(MultitouchEvent::Release { finger: Finger { last_pressed: finger.pressed, ..finger } })
                } else if finger.last_pressed && finger.pressed && finger.pos_updated {
                    Some(MultitouchEvent::Move { finger })
                } else {
                    None
                };
                let updated = Finger { last_pressed: finger.pressed, pos_updated: false, ..finger };
                fingers_insert(&mut state.fingers, slot, updated);
                match event {
                    Some(e) => events.push(e),
                    None => {},
                }
                proof {
                    assert(entries@.take(i + 1).drop_last() =~= entries@.take(i as int));
                    assert(entries@.take(i + 1).last() == entries@[i as int]);
                    assert forall|k: i32| #[trigger] old_fingers.contains_key(k) implies state.fingers@[k]
                        == if exists|j: int| 0 <= j < i + 1 && entries@[j].0 == k {
                        report_update(old_fingers[k])
                    } else {
                        old_fingers[k]
                    } by {
                        if k == slot {
                            assert(entries@[i as int].0 == k);
                        } else {
                            if exists|j: int| 0 <= j < i + 1 && entries@[j].0 == k {
                                let j = choose|j: int| 0 <= j < i + 1 && entries@[j].0 == k;
                                assert(j != i);
                            }
                        }
                    }
                    assert(state.fingers@.dom() =~= old_fingers.dom());
                }
            }
            proof {
                assert(entries@.take(n as int) =~= entries@);
                assert forall|k: i32| #[trigger] old_fingers.contains_key(k) implies state.fingers@[k]
                    == report_update(old_fingers[k]) by {
                    let j = choose|j: int| 0 <= j < entries@.len() && #[trigger] entries@[j].0 == k;
                    assert(0 <= j < n && entries@[j].0 == k);
                }
                assert(state.fingers@ =~= spec_after_report(old_fingers));
            }
            events
        } else {
            Vec::new()
        }
    } else if ev.event_type == ecodes::EV_ABS {
        if ev.code == ecodes::ABS_MT_SLOT {
            state.current_slot = ev.value;
        } else if ev.code == ecodes::ABS_MT_POSITION_X || ev.code == ecodes::ABS_MT_POSITION_Y {
            let v = #[verifier::truncate] (ev.value as u16);
            let seg = if ev.code == ecodes::ABS_MT_POSITION_X {
                CoordinatePart::X(v)
            } else {
                CoordinatePart::Y(v)
            };
            let f = entry(&state.fingers, current_slot);
            let updated = match mapping.map(seg) {
                CoordinatePart::X(x) => Finger { pos: Point2 { x, y: f.pos.y }, pos_updated: true, ..f },
                CoordinatePart::Y(y) => Finger { pos: Point2 { x: f.pos.x, y }, pos_updated: true, ..f },
            };
            fingers_insert(&mut state.fingers, current_slot, updated);
        } else if ev.code == ecodes::ABS_MT_PRESSURE {
            if ev.value > 0 {
                let f = entry(&state.fingers, current_slot);
                fingers_insert(&mut state.fingers, current_slot, Finger { pressed: true, ..f });
            }
        } else if ev.code == ecodes::ABS_MT_TRACKING_ID {
            let f = entry(&state.fingers, current_slot);
            if ev.value == -1 {
                fingers_insert(&mut state.fingers, current_slot, Finger { pressed: false, ..f });
            } else {
                fingers_insert(&mut state.fingers, current_slot, Finger { tracking_id: ev.value, ..f });
            }
        }
        // ABS_MT_ORIENTATION, ABS_MT_TOUCH_MAJOR and ABS_MT_TOUCH_MINOR are not needed
        Vec::new()
    } else {
        Vec::new()
    }
}

/// Fingers that announce nothing give a report without events.
proof fn lemma_quiet_fingers(order: Seq<(i32, Finger)>)
    requires
        forall|i: int| 0 <= i < order.len() ==> report_event(#[trigger] order[i].1) is None,
    ensures
        report_events(order) == Seq::<MultitouchEvent>::empty(),
    decreases order.len(),
{
    if order.len() > 0 {
        let rest = order.drop_last();
        assert forall|i: int| 0 <= i < rest.len() implies report_event(#[trigger] rest[i].1) is None by {
            assert(rest[i] == order[i]);
        }
        lemma_quiet_fingers(rest);
        assert(report_event(order[order.len() - 1].1) is None);
    }
}

/// A sync report right after another announces nothing, in whatever order
/// the map walks the fingers: each finger's press state and motion were
/// taken note of by the first report.
pub proof fn lemma_report_settles(m: Map<i32, Finger>, order: Seq<(i32, Finger)>)
    requires
        is_listing(order, spec_after_report(m)),
    ensures
        report_events(order) == Seq::<MultitouchEvent>::empty(),
{
    assert forall|i: int| 0 <= i < order.len() implies report_event(#[trigger] order[i].1) is None by {
        let k = order[i].0;
        assert(spec_after_report(m).contains_key(k));
        assert(order[i].1 == report_update(m[k]));
    }
    lemma_quiet_fingers(order);
}

/// A report of fingers in some order holds the event of each finger that announces one.
proof fn lemma_report_events_hold(order: Seq<(i32, Finger)>, k: int)
    requires
        0 <= k < order.len(),
        report_event(order[k].1) is Some,
    ensures
        exists|i: int|
            0 <= i < report_events(order).len() && #[trigger] report_events(order)[i]
                == report_event(order[k].1)->0,
    decreases order.len(),
{
    let rest = order.drop_last();
    let prev = report_events(rest);
    if k == order.len() - 1 {
        let e = report_event(order.last().1)->0;
        assert(report_events(order) == prev.push(e));
        assert(report_events(order)[prev.len() as int] == e);
    } else {
        assert(rest[k] == order[k]);
        lemma_report_events_hold(rest, k);
        let i = choose|i: int| 0 <= i < prev.len() && #[trigger] prev[i] == report_event(rest[k].1)->0;
        match report_event(order.last().1) {
            Some(e) => {
                assert(report_events(order) == prev.push(e));
                assert(report_events(order)[i] == prev[i]);
            },
            None => {
                assert(report_events(order) == prev);
            },
        }
    }
}

/// A position report, on either axis, for a finger that is held down moves
/// that finger: the coordinate it reports, once mapped, becomes the finger's,
/// the other coordinate stays, and the next sync report announces a move of
/// the finger at its new position, in whatever order the map walks the fingers.
pub proof fn lemma_position_report_moves(
    m: Map<i32, Finger>,
    slot: i32,
    ev: RawInputEvent,
    mapping: AxisMapping,
    order: Seq<(i32, Finger)>,
)
    requires
        ev.event_type == ecodes::EV_ABS,
        ev.code == ecodes::ABS_MT_POSITION_X || ev.code == ecodes::ABS_MT_POSITION_Y,
        m.contains_key(slot),
        m[slot].pressed,
        m[slot].last_pressed,
        is_listing(order, spec_next_fingers(m, slot, ev, mapping)),
    ensures
        ({
            let seg = if ev.code == ecodes::ABS_MT_POSITION_X {
                CoordinatePart::X(ev.value as u16)
            } else {
                CoordinatePart::Y(ev.value as u16)
            };
            let f = spec_next_fingers(m, slot, ev, mapping)[slot];
            &&& f.pos == match mapping.spec_map(seg) {
                CoordinatePart::X(x) => Point2 { x, y: m[slot].pos.y },
                CoordinatePart::Y(y) => Point2 { x: m[slot].pos.x, y },
            }
            &&& f.tracking_id == m[slot].tracking_id
            &&& exists|i: int|
                0 <= i < report_events(order).len() && #[trigger] report_events(order)[i]
                    == MultitouchEvent::Move { finger: f }
        }),
{
    let m2 = spec_next_fingers(m, slot, ev, mapping);
    let f = m2[slot];
    assert(m2.contains_key(slot));
    let k = choose|k: int| 0 <= k < order.len() && #[trigger] order[k].0 == slot;
    assert(order[k].1 == f);
    assert(report_event(f) == Some(MultitouchEvent::Move { finger: f }));
    lemma_report_events_hold(order, k);
}

/// A finger that is not held down starts being held when a pressure is
/// reported: the next sync report announces its press, in whatever order the
/// map walks the fingers.
pub proof fn lemma_pressure_reports_press(
    m: Map<i32, Finger>,
    slot: i32,
    ev: RawInputEvent,
    mapping: AxisMapping,
    order: Seq<(i32, Finger)>,
)
    requires
        ev.event_type == ecodes::EV_ABS,
        ev.code == ecodes::ABS_MT_PRESSURE,
        ev.value > 0,
        !spec_entry(m, slot).last_pressed,
        is_listing(order, spec_next_fingers(m, slot, ev, mapping)),
    ensures
        (exists|i: int|
            0 <= i < report_events(order).len() && #[trigger] report_events(order)[i]
                == (MultitouchEvent::Press {
                finger: (Finger { pressed: true, last_pressed: true, ..spec_entry(m, slot) }),
            })),
{
    let m2 = spec_next_fingers(m, slot, ev, mapping);
    assert(m2.contains_key(slot));
    let k = choose|k: int| 0 <= k < order.len() && #[trigger] order[k].0 == slot;
    assert(order[k].1 == m2[slot]);
    lemma_report_events_hold(order, k);
}

/// A finger that is held down is let go when its tracking ends (id -1): the
/// next sync report announces its release, in whatever order the map walks
/// the fingers.
pub proof fn lemma_tracking_end_reports_release(
    m: Map<i32, Finger>,
    slot: i32,
    ev: RawInputEvent,
    mapping: AxisMapping,
    order: Seq<(i32, Finger)>,
)
    requires
        ev.event_type == ecodes::EV_ABS,
        ev.code == ecodes::ABS_MT_TRACKING_ID,
        ev.value == -1,
        spec_entry(m, slot).last_pressed,
        is_listing(order, spec_next_fingers(m, slot, ev, mapping)),
    ensures
        (exists|i: int|
            0 <= i < report_events(order).len() && #[trigger] report_events(order)[i]
                == (MultitouchEvent::Release {
                finger: (Finger { pressed: false, last_pressed: false, ..spec_entry(m, slot) }),
            })),
{
    let m2 = spec_next_fingers(m, slot, ev, mapping);
    assert(m2.contains_key(slot));
    let k = choose|k: int| 0 <= k < order.len() && #[trigger] order[k].0 == slot;
    assert(order[k].1 == m2[slot]);
    lemma_report_events_hold(order, k);
}

/// A tracking id other than -1 is taken by the finger in the current slot;
/// the other fingers are left alone.
pub proof fn lemma_tracking_id_taken(m: Map<i32, Finger>, slot: i32, ev: RawInputEvent, mapping: AxisMapping)
    requires
        ev.event_type == ecodes::EV_ABS,
        ev.code == ecodes::ABS_MT_TRACKING_ID,
        ev.value != -1,
    ensures
        spec_next_fingers(m, slot, ev, mapping)[slot].tracking_id == ev.value,
        forall|k: i32|
            k != slot && m.contains_key(k) ==> #[trigger] spec_next_fingers(m, slot, ev, mapping)[k]
                == m[k],
{
}

/// A slot report selects the finger that the reports after it are about: a
/// position report then changes that finger and no other.
pub proof fn lemma_slot_selects_finger(
    m: Map<i32, Finger>,
    cur: i32,
    select: RawInputEvent,
    ev: RawInputEvent,
    mapping: AxisMapping,
)
    requires
        select.event_type == ecodes::EV_ABS,
        select.code == ecodes::ABS_MT_SLOT,
        ev.event_type == ecodes::EV_ABS,
        ev.code == ecodes::ABS_MT_POSITION_X || ev.code == ecodes::ABS_MT_POSITION_Y,
    ensures
        spec_next_fingers(m, cur, select, mapping) == m,
        spec_next_slot(cur, select) == select.value,
        spec_next_fingers(m, spec_next_slot(cur, select), ev, mapping).contains_key(select.value),
        spec_next_fingers(m, spec_next_slot(cur, select), ev, mapping)[select.value].pos_updated,
        forall|k: i32|
            k != select.value && m.contains_key(k) ==> #[trigger] spec_next_fingers(
                m,
                spec_next_slot(cur, select),
                ev,
                mapping,
            )[k] == m[k],
{
}

} // verus!
