use vstd::prelude::*;

use super::ecodes;
use super::rotate::CoordinatePart;
use super::{AxisMapping, RawInputEvent, WacomPen};
use crate::geometry::{Point2, Vector2};

verus! {

/// What the digitizer last reported on each axis. Positions are in digitizer
/// units, already turned into portrait orientation.
#[derive(Clone, Copy, Debug, PartialEq, Eq, Structural)]
pub struct WacomState {
    pub last_x: u16,
    pub last_y: u16,
    pub last_xtilt: u16,
    pub last_ytilt: u16,
    pub last_dist: u16,
    pub last_pressure: u16,
    pub last_touch_state: bool,
}

/// An event of the digitizer. Positions are in digitizer units in portrait
/// orientation; scaled by the ratio of display size to digitizer size they
/// give display coordinates.
#[derive(Clone, Copy, Debug, PartialEq, Eq, Structural)]
pub enum WacomEvent {
    InstrumentChange { pen: WacomPen, state: bool },
    Hover { position: Point2<u16>, distance: u16, tilt: Vector2<u16> },
    Draw { position: Point2<u16>, pressure: u16, tilt: Vector2<u16> },
    Unknown,
}

impl WacomState {
    pub open spec fn spec_initial() -> WacomState {
        WacomState {
            last_x: 0,
            last_y: 0,
            last_xtilt: 0,
            last_ytilt: 0,
            last_dist: 0,
            last_pressure: 0,
            last_touch_state: false,
        }
    }
}

impl Default for WacomState {
    /// Nothing reported yet: every axis at zero, the pen not touching.
    fn default() -> (s: WacomState)
        ensures
            s == WacomState::spec_initial(),
    {
        WacomState {
            last_x: 0,
            last_y: 0,
            last_xtilt: 0,
            last_ytilt: 0,
            last_dist: 0,
            last_pressure: 0,
            last_touch_state: false,
        }
    }
}

/// The event that a sync reports: drawing while the pen touches, hovering otherwise.
pub open spec fn spec_sync_event(s: WacomState) -> WacomEvent {
    if s.last_touch_state {
        WacomEvent::Draw {
            position: Point2 { x: s.last_x, y: s.last_y },
            pressure: s.last_pressure,
            tilt: Vector2 { x: s.last_xtilt, y: s.last_ytilt },
        }
    } else {
        WacomEvent::Hover {
            position: Point2 { x: s.last_x, y: s.last_y },
            distance: s.last_dist,
            tilt: Vector2 { x: s.last_xtilt, y: s.last_ytilt },
        }
    }
}

/// The state after a position report `seg`, mapped to portrait coordinates.
pub open spec fn spec_store_position(s: WacomState, mapping: AxisMapping, seg: CoordinatePart) -> WacomState {
    match mapping.spec_map(seg) {
        CoordinatePart::X(x) => WacomState { last_x: x, ..s },
        CoordinatePart::Y(y) => WacomState { last_y: y, ..s },
    }
}

/// What `decode` reports for `ev` in state `s`.
pub open spec fn spec_decode_event(s: WacomState, ev: RawInputEvent) -> Option<WacomEvent> {
    if ev.event_type == ecodes::EV_SYN {
        Some(spec_sync_event(s))
    } else if ev.event_type == ecodes::EV_KEY {
        if exists|p: WacomPen| p.spec_code() == ev.code {
            let pen = choose|p: WacomPen| p.spec_code() == ev.code;
            Some(WacomEvent::InstrumentChange { pen, state: ev.value != 0 })
        } else {
            None
        }
    } else {
        None
    }
}

/// The state after `ev` in state `s`.
pub open spec fn spec_decode_state(s: WacomState, ev: RawInputEvent, mapping: AxisMapping) -> WacomState {
    let v = ev.value as u16;
    if ev.event_type == ecodes::EV_KEY {
        if ev.code == ecodes::BTN_TOUCH {
            WacomState { last_touch_state: ev.value != 0, ..s }
        } else {
            s
        }
    } else if ev.event_type == ecodes::EV_ABS {
        if ev.code == ecodes::ABS_DISTANCE {
            // While the pen presses down, distance reports add to the pressure.
            if s.last_pressure == 0 {
                WacomState { last_dist: v, last_touch_state: false, ..s }
            } else {
                WacomState {
                    last_pressure: if s.last_pressure + v > u16::MAX {
                        (s.last_pressure + v - 0x1_0000) as u16
                    } else {
                        (s.last_pressure + v) as u16
                    },
                    last_touch_state: true,
                    ..s
                }
            }
        } else if ev.code == ecodes::ABS_TILT_X {
            WacomState { last_xtilt: v, ..s }
        } else if ev.code == ecodes::ABS_TILT_Y {
            WacomState { last_ytilt: v, ..s }
        } else if ev.code == ecodes::ABS_PRESSURE {
            WacomState { last_pressure: v, ..s }
        } else if ev.code == ecodes::ABS_X {
            spec_store_position(s, mapping, CoordinatePart::X(v))
        } else if ev.code == ecodes::ABS_Y {
            spec_store_position(s, mapping, CoordinatePart::Y(v))
        } else {
            s
        }
    } else {
        s
    }
}

/// The mapping can take a position report of `ev`.
pub open spec fn position_fits(ev: RawInputEvent, mapping: AxisMapping) -> bool {
    &&& (ev.event_type == ecodes::EV_ABS && ev.code == ecodes::ABS_X) ==> mapping.fits(
        CoordinatePart::X(ev.value as u16),
    )
    &&& (ev.event_type == ecodes::EV_ABS && ev.code == ecodes::ABS_Y) ==> mapping.fits(
        CoordinatePart::Y(ev.value as u16),
    )
}

/// Decodes one event of the digitizer. Axis reports update the state;
/// a sync reports hovering or drawing at the last position; a key of a
/// known tool reports the tool change.
pub fn decode(ev: &RawInputEvent, state: &mut WacomState, mapping: &AxisMapping) -> (r: Option<WacomEvent>)
    requires
        position_fits(*ev, *mapping),
    ensures
        r == spec_decode_event(*old(state), *ev),
        *final(state) == spec_decode_state(*old(state), *ev, *mapping),
{
    if ev.event_type == ecodes::EV_SYN {
        let position = Point2 { x: state.last_x, y: state.last_y };
        let tilt = Vector2 { x: state.last_xtilt, y: state.last_ytilt };
        if state.last_touch_state {
            Some(WacomEvent::Draw { position, pressure: state.last_pressure, tilt })
        } else {
            Some(WacomEvent::Hover { position, distance: state.last_dist, tilt })
        }
    } else if ev.event_type == ecodes::EV_KEY {
        // key (device detected - device out of range etc.)
        match WacomPen::from_code(ev.code) {
            None => {
                assert(WacomPen::Touch.spec_code() != ev.code);
                None
            },
            Some(pen) => {
                let pen_state = ev.value != 0;
                if ev.code == ecodes::BTN_TOUCH {
                    state.last_touch_state = pen_state;
                }
                proof {
                    let chosen = choose|p: WacomPen| p.spec_code() == ev.code;
                    assert(chosen.spec_code() == ev.code);
                    assert(chosen == pen);
                }
                Some(WacomEvent::InstrumentChange { pen, state: pen_state })
            },
        }
    } else if ev.event_type == ecodes::EV_ABS {
        let v = #[verifier::truncate] (ev.value as u16);
        if ev.code == ecodes::ABS_DISTANCE {
            // distance up to 255; while the tip is pressed the distance
            // reports add to the pressure instead
            if state.last_pressure == 0 {
                state.last_dist = v;
                state.last_touch_state = false;
            } else {
                state.last_pressure = state.last_pressure.wrapping_add(v);
                state.last_touch_state = true;
            }
        } else if ev.code == ecodes::ABS_TILT_X {
            // xtilt -9000 to 9000
            state.last_xtilt = v;
        } else if ev.code == ecodes::ABS_TILT_Y {
            // ytilt -9000 to 9000
            state.last_ytilt = v;
        } else if ev.code == ecodes::ABS_PRESSURE {
            // contact made with pressure val up to 4095
            state.last_pressure = v;
        } else if ev.code == ecodes::ABS_X || ev.code == ecodes::ABS_Y {
            let seg = if ev.code == ecodes::ABS_X {
                CoordinatePart::X(v)
            } else {
                CoordinatePart::Y(v)
            };
            match mapping.map(seg) {
                CoordinatePart::X(x) => {
                    state.last_x = x;
                },
                CoordinatePart::Y(y) => {
                    state.last_y = y;
                },
            }
        }
        None
    } else {
        None
    }
}

/// A key event of the touch button decides whether the next sync reports
/// drawing or hovering.
pub proof fn lemma_touch_decides_sync(s: WacomState, key: RawInputEvent, mapping: AxisMapping)
    requires
        key.event_type == ecodes::EV_KEY,
        key.code == ecodes::BTN_TOUCH,
    ensures
        spec_sync_event(spec_decode_state(s, key, mapping)) is Draw <==> key.value != 0,
{
}

/// Axis reports are silent; a sync reports the last values without changing them.
pub proof fn lemma_sync_reports_state(s: WacomState, ev: RawInputEvent, mapping: AxisMapping)
    requires
        ev.event_type == ecodes::EV_SYN,
    ensures
        spec_decode_state(s, ev, mapping) == s,
        spec_decode_event(s, ev) == Some(spec_sync_event(s)),
{
}

/// A position report moves the pen: the next sync reports the pen at the
/// reported coordinate, mapped into portrait, with the other coordinate
/// kept; it draws, with the last pressure, while the pen touches, and hovers,
/// at the last distance, otherwise.
pub proof fn lemma_position_then_sync(
    s: WacomState,
    ev: RawInputEvent,
    syn: RawInputEvent,
    mapping: AxisMapping,
)
    requires
        ev.event_type == ecodes::EV_ABS,
        ev.code == ecodes::ABS_X || ev.code == ecodes::ABS_Y,
        syn.event_type == ecodes::EV_SYN,
    ensures
        ({
            let seg = if ev.code == ecodes::ABS_X {
                CoordinatePart::X(ev.value as u16)
            } else {
                CoordinatePart::Y(ev.value as u16)
            };
            let position = match mapping.spec_map(seg) {
                CoordinatePart::X(x) => Point2 { x, y: s.last_y },
                CoordinatePart::Y(y) => Point2 { x: s.last_x, y },
            };
            let tilt = Vector2 { x: s.last_xtilt, y: s.last_ytilt };
            &&& spec_decode_event(s, ev) is None
            &&& spec_decode_event(spec_decode_state(s, ev, mapping), syn) == Some(
                if s.last_touch_state {
                    WacomEvent::Draw { position, pressure: s.last_pressure, tilt }
                } else {
                    WacomEvent::Hover { position, distance: s.last_dist, tilt }
                },
            )
        }),
{
}

/// A pressure report followed by the touch of the tip makes the next sync a
/// draw with that pressure, at the pen's last position and tilt.
pub proof fn lemma_pressure_then_touch_draws(
    s: WacomState,
    pressure: RawInputEvent,
    touch: RawInputEvent,
    syn: RawInputEvent,
    mapping: AxisMapping,
)
    requires
        pressure.event_type == ecodes::EV_ABS,
        pressure.code == ecodes::ABS_PRESSURE,
        touch.event_type == ecodes::EV_KEY,
        touch.code == ecodes::BTN_TOUCH,
        touch.value != 0,
        syn.event_type == ecodes::EV_SYN,
    ensures
        spec_decode_event(spec_decode_state(spec_decode_state(s, pressure, mapping), touch, mapping), syn)
            == Some(
            WacomEvent::Draw {
                position: Point2 { x: s.last_x, y: s.last_y },
                pressure: pressure.value as u16,
                tilt: Vector2 { x: s.last_xtilt, y: s.last_ytilt },
            },
        ),
        spec_decode_event(spec_decode_state(s, pressure, mapping), touch) == Some(
            WacomEvent::InstrumentChange { pen: WacomPen::Touch, state: true },
        ),
{
    assert(WacomPen::Touch.spec_code() == touch.code);
    let chosen = choose|p: WacomPen| p.spec_code() == touch.code;
    assert(chosen.spec_code() == touch.code);
}

} // verus!
