use vstd::prelude::*;
use vstd::string::*;

use crate::input::ecodes;
use crate::input::{RawInputEvent, WacomPen};

verus! {

/// Width of the digitizer in its own units.
pub const WACOMWIDTH: u16 = 15725;
/// Height of the digitizer in its own units.
pub const WACOMHEIGHT: u16 = 20967;

/// An event of the digitizer. Positions are in digitizer units, turned into
/// the display's orientation; scaled by the ratio of display size to
/// digitizer size they give display coordinates.
#[derive(Clone, Copy, Debug, PartialEq, Eq, Structural)]
pub enum WacomEvent {
    InstrumentChange { pen: WacomPen, state: bool },
    Hover { y: u16, x: u16, distance: u16, tilt_x: u16, tilt_y: u16 },
    Draw { y: u16, x: u16, pressure: u16, tilt_x: u16, tilt_y: u16 },
}

/// A basic handler for the Wacom digitizer that reports hovering on each
/// distance report and drawing on each pressure report.
pub struct WacomHandler {
    pub name: String,
    pub last_x: u16,
    pub last_y: u16,
    pub last_xtilt: u16,
    pub last_ytilt: u16,
    pub last_dist: u16,
    pub last_pressure: u16,
    pub verbose: bool,
}

/// The position reports of `ev` can be mirrored.
pub open spec fn position_fits(ev: RawInputEvent) -> bool {
    (ev.event_type == ecodes::EV_ABS && ev.code == ecodes::ABS_X) ==> (ev.value as u16) <= WACOMHEIGHT
}

/// What the handler reports for `ev`, and its state after it.
pub open spec fn spec_pen_step(o: WacomHandler, ev: RawInputEvent) -> (Option<WacomEvent>, WacomHandler) {
    let v = ev.value as u16;
    if ev.event_type == ecodes::EV_KEY {
        if exists|p: WacomPen| p.spec_code() == ev.code {
            (
                Some(
                    WacomEvent::InstrumentChange {
                        pen: choose|p: WacomPen| p.spec_code() == ev.code,
                        state: ev.value != 0,
                    },
                ),
                o,
            )
        } else {
            (None, o)
        }
    } else if ev.event_type == ecodes::EV_ABS {
        if ev.code == ecodes::ABS_DISTANCE {
            (
                Some(
                    WacomEvent::Hover {
                        y: o.last_y,
                        x: o.last_x,
                        distance: v,
                        tilt_x: o.last_xtilt,
                        tilt_y: o.last_ytilt,
                    },
                ),
                WacomHandler { last_dist: v, ..o },
            )
        } else if ev.code == ecodes::ABS_TILT_X {
            (None, WacomHandler { last_xtilt: v, ..o })
        } else if ev.code == ecodes::ABS_TILT_Y {
            (None, WacomHandler { last_ytilt: v, ..o })
        } else if ev.code == ecodes::ABS_PRESSURE {
            (
                Some(
                    WacomEvent::Draw {
                        y: o.last_y,
                        x: o.last_x,
                        pressure: v,
                        tilt_x: o.last_xtilt,
                        tilt_y: o.last_ytilt,
                    },
                ),
                WacomHandler { last_pressure: v, ..o },
            )
        } else if ev.code == ecodes::ABS_X {
            (None, WacomHandler { last_y: (WACOMHEIGHT - v) as u16, ..o })
        } else if ev.code == ecodes::ABS_Y {
            (None, WacomHandler { last_x: v, ..o })
        } else {
            (None, o)
        }
    } else {
        (None, o)
    }
}

impl WacomHandler {
    /// A handler that has seen nothing yet; `verbose` asks for reports of
    /// events it does not know.
    pub fn get_instance(verbose: bool) -> (h: WacomHandler)
        ensures
            h.name@ == "MT"@,
            h.verbose == verbose,
            h.last_x == 0 && h.last_y == 0 && h.last_xtilt == 0 && h.last_ytilt == 0,
            h.last_dist == 0 && h.last_pressure == 0,
    {
        WacomHandler {
            name: String::from_str("MT"),
            verbose,
            last_pressure: 0,
            last_x: 0,
            last_y: 0,
            last_xtilt: 0,
            last_ytilt: 0,
            last_dist: 0,
        }
    }

    /// Called once the device is open; takes note of its name.
    pub fn on_init(&mut self, name: String)
        ensures
            final(self).name@ == name@,
    {
        self.name = name;
    }

    /// Takes one event of the digitizer and answers the event to report, if any.
    pub fn on_event(&mut self, ev: &RawInputEvent) -> (r: Option<WacomEvent>)
        requires
            position_fits(*ev),
        ensures
            (r, *final(self)) == spec_pen_step(*old(self), *ev),
            final(self).name == old(self).name && final(self).verbose == old(self).verbose,
            ev.event_type == ecodes::EV_KEY ==> *final(self) == *old(self) && r == if exists|
                p: WacomPen,
            | p.spec_code() == ev.code {
                Some(
                    WacomEvent::InstrumentChange {
                        pen: choose|p: WacomPen| p.spec_code() == ev.code,
                        state: ev.value != 0,
                    },
                )
            } else {
                None
            },
            ev.event_type == ecodes::EV_ABS ==> {
                let v = ev.value as u16;
                let o = *old(self);
                let f = *final(self);
                if ev.code == ecodes::ABS_DISTANCE {
                    f == WacomHandler { last_dist: v, ..o } && r == Some(
                        WacomEvent::Hover {
                            y: o.last_y,
                            x: o.last_x,
                            distance: v,
                            tilt_x: o.last_xtilt,
                            tilt_y: o.last_ytilt,
                        },
                    )
                } else if ev.code == ecodes::ABS_TILT_X {
                    r is None && f == WacomHandler { last_xtilt: v, ..o }
                } else if ev.code == ecodes::ABS_TILT_Y {
                    r is None && f == WacomHandler { last_ytilt: v, ..o }
                } else if ev.code == ecodes::ABS_PRESSURE {
                    f == WacomHandler { last_pressure: v, ..o } && r == Some(
                        WacomEvent::Draw {
                            y: o.last_y,
                            x: o.last_x,
                            pressure: v,
                            tilt_x: o.last_xtilt,
                            tilt_y: o.last_ytilt,
                        },
                    )
                } else if ev.code == ecodes::ABS_X {
                    // x and y are swapped on the tablet
                    r is None && f == WacomHandler { last_y: (WACOMHEIGHT - v) as u16, ..o }
                } else if ev.code == ecodes::ABS_Y {
                    r is None && f == WacomHandler { last_x: v, ..o }
                } else {
                    r is None && f == o
                }
            },
            ev.event_type != ecodes::EV_KEY && ev.event_type != ecodes::EV_ABS ==> r is None
                && *final(self) == *old(self),
    {
        if ev.event_type == ecodes::EV_KEY {
            // key (device detected - device out of range etc.)
            match WacomPen::from_code(ev.code) {
                Some(pen) => {
                    proof {
                        let chosen = choose|p: WacomPen| p.spec_code() == ev.code;
                        assert(chosen.spec_code() == ev.code);
                    }
                    Some(WacomEvent::InstrumentChange { pen, state: ev.value != 0 })
                },
                None => None,
            }
        } else if ev.event_type == ecodes::EV_ABS {
            let v = #[verifier::truncate] (ev.value as u16);
            if ev.code == ecodes::ABS_DISTANCE {
                // distance up to 255
                self.last_dist = v;
                Some(
                    WacomEvent::Hover {
                        y: self.last_y,
                        x: self.last_x,
                        distance: self.last_dist,
                        tilt_x: self.last_xtilt,
                        tilt_y: self.last_ytilt,
                    },
                )
            } else if ev.code == ecodes::ABS_TILT_X {
                // xtilt -9000 to 9000
                self.last_xtilt = v;
                None
            } else if ev.code == ecodes::ABS_TILT_Y {
                // ytilt -9000 to 9000
                self.last_ytilt = v;
                None
            } else if ev.code == ecodes::ABS_PRESSURE {
                // contact made with pressure val up to 4095
                self.last_pressure = v;
                Some(
                    WacomEvent::Draw {
                        y: self.last_y,
                        x: self.last_x,
                        pressure: self.last_pressure,
                        tilt_x: self.last_xtilt,
                        tilt_y: self.last_ytilt,
                    },
                )
            } else if ev.code == ecodes::ABS_X {
                // x and y are swapped on the tablet
                self.last_y = WACOMHEIGHT - v;
                None
            } else if ev.code == ecodes::ABS_Y {
                self.last_x = v;
                None
            } else {
                None
            }
        } else {
            None
        }
    }
}

/// The digitizer's axes are swapped and its y mirrored: after an ABS_Y
/// report and an ABS_X report, a draw is reported at x the first and y the
/// second mirrored against the digitizer's height, with the pressure
/// reported; a distance report hovers there at that distance.
pub proof fn lemma_pen_position(
    o: WacomHandler,
    yr: RawInputEvent,
    xr: RawInputEvent,
    ev: RawInputEvent,
)
    requires
        yr.event_type == ecodes::EV_ABS,
        yr.code == ecodes::ABS_Y,
        xr.event_type == ecodes::EV_ABS,
        xr.code == ecodes::ABS_X,
        (xr.value as u16) <= WACOMHEIGHT,
        ev.event_type == ecodes::EV_ABS,
        ev.code == ecodes::ABS_PRESSURE || ev.code == ecodes::ABS_DISTANCE,
    ensures
        ({
            let s = spec_pen_step(spec_pen_step(o, yr).1, xr).1;
            let x = yr.value as u16;
            let y = (WACOMHEIGHT - (xr.value as u16)) as u16;
            &&& spec_pen_step(o, yr).0 is None && spec_pen_step(spec_pen_step(o, yr).1, xr).0 is None
            &&& ev.code == ecodes::ABS_PRESSURE ==> spec_pen_step(s, ev).0 == Some(
                WacomEvent::Draw {
                    y,
                    x,
                    pressure: ev.value as u16,
                    tilt_x: o.last_xtilt,
                    tilt_y: o.last_ytilt,
                },
            )
            &&& ev.code == ecodes::ABS_DISTANCE ==> spec_pen_step(s, ev).0 == Some(
                WacomEvent::Hover {
                    y,
                    x,
                    distance: ev.value as u16,
                    tilt_x: o.last_xtilt,
                    tilt_y: o.last_ytilt,
                },
            )
        }),
{
}

} // verus!
