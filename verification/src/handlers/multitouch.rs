use vstd::prelude::*;
use vstd::string::*;

use crate::input::ecodes;
use crate::input::RawInputEvent;

verus! {

/// Width of the touchscreen in its own units.
pub const MTWIDTH: u16 = 767;
/// Height of the touchscreen in its own units.
pub const MTHEIGHT: u16 = 1023;

/// A touch to report: the touch sequence, the finger and its position in
/// touchscreen units, mirrored into the display's orientation. Scaled by the
/// ratio of display size to touchscreen size it gives display coordinates.
#[derive(Clone, Copy, Debug, PartialEq, Eq, Structural)]
pub struct Touch {
    pub touch_id: u16,
    pub finger_id: u16,
    pub y: u16,
    pub x: u16,
}

/// A simple handler for the touchscreen that follows one touch at a time.
pub struct MultitouchHandler {
    pub name: String,
    pub last_touch_id: u16,
    pub last_touch_size: u8,
    pub currently_touching: bool,
    pub last_x: u16,
    pub last_y: u16,
    pub last_finger_id: u16,
}

/// The positions of `ev` can be mirrored.
pub open spec fn position_fits(ev: RawInputEvent) -> bool {
    &&& (ev.event_type == ecodes::EV_ABS && ev.code == ecodes::ABS_MT_POSITION_X) ==> (ev.value as u16) <= MTWIDTH
    &&& (ev.event_type == ecodes::EV_ABS && ev.code == ecodes::ABS_MT_POSITION_Y) ==> (ev.value as u16) <= MTHEIGHT
}

/// What the handler reports for `ev`, and its state after it.
pub open spec fn spec_touch_step(o: MultitouchHandler, ev: RawInputEvent) -> (Option<Touch>, MultitouchHandler) {
    let v = ev.value as u16;
    if ev.event_type != ecodes::EV_ABS {
        (None, o)
    } else if ev.code == ecodes::ABS_MT_SLOT {
        (None, MultitouchHandler { last_finger_id: v, ..o })
    } else if ev.code == ecodes::ABS_MT_POSITION_X {
        (None, MultitouchHandler { last_x: (MTWIDTH - v) as u16, ..o })
    } else if ev.code == ecodes::ABS_MT_POSITION_Y {
        (
            Some(
                Touch {
                    touch_id: o.last_touch_id,
                    finger_id: o.last_finger_id,
                    y: (MTHEIGHT - v) as u16,
                    x: o.last_x,
                },
            ),
            MultitouchHandler { last_y: (MTHEIGHT - v) as u16, ..o },
        )
    } else if ev.code == ecodes::ABS_MT_TOUCH_MINOR {
        (None, MultitouchHandler { last_touch_size: ev.value as u8, ..o })
    } else if ev.code == ecodes::ABS_MT_TRACKING_ID {
        if ev.value == -1 {
            (None, MultitouchHandler { currently_touching: false, ..o })
        } else {
            (None, MultitouchHandler { last_touch_id: v, currently_touching: true, ..o })
        }
    } else {
        (None, o)
    }
}

impl MultitouchHandler {
    /// A handler named "MT" that has seen nothing yet.
    pub fn get_instance() -> (h: MultitouchHandler)
        ensures
            h.name@ == "MT"@,
            h.last_touch_id == 0 && h.last_touch_size == 0 && !h.currently_touching,
            h.last_x == 0 && h.last_y == 0 && h.last_finger_id == 0,
    {
        MultitouchHandler {
            name: String::from_str("MT"),
            currently_touching: false,
            last_finger_id: 0,
            last_touch_id: 0,
            last_touch_size: 0,
            last_x: 0,
            last_y: 0,
        }
    }

    /// Called once the device is open; takes note of its name.
    pub fn on_init(&mut self, name: String)
        ensures
            final(self).name@ == name@,
    {
        self.name = name;
    }

    /// Takes one event of the touchscreen. A y position completes a touch,
    /// which is reported with the last x position.
    pub fn on_event(&mut self, ev: &RawInputEvent) -> (r: Option<Touch>)
        requires
            position_fits(*ev),
        ensures
            (r, *final(self)) == spec_touch_step(*old(self), *ev),
            final(self).name == old(self).name,
            ev.event_type != ecodes::EV_ABS ==> r is None && final(self).last_x == old(self).last_x
                && final(self).last_y == old(self).last_y && final(self).last_touch_id == old(self).last_touch_id
                && final(self).last_finger_id == old(self).last_finger_id
                && final(self).last_touch_size == old(self).last_touch_size
                && final(self).currently_touching == old(self).currently_touching,
            ev.event_type == ecodes::EV_ABS ==> {
                let v = ev.value as u16;
                let o = *old(self);
                let f = *final(self);
                if ev.code == ecodes::ABS_MT_SLOT {
                    r is None && f == MultitouchHandler { last_finger_id: v, ..o }
                } else if ev.code == ecodes::ABS_MT_POSITION_X {
                    r is None && f == MultitouchHandler { last_x: (MTWIDTH - v) as u16, ..o }
                } else if ev.code == ecodes::ABS_MT_POSITION_Y {
                    f == MultitouchHandler { last_y: (MTHEIGHT - v) as u16, ..o } && r == Some(
                        Touch {
                            touch_id: o.last_touch_id,
                            finger_id: o.last_finger_id,
                            y: (MTHEIGHT - v) as u16,
                            x: o.last_x,
                        },
                    )
                } else if ev.code == ecodes::ABS_MT_TOUCH_MINOR {
                    r is None && f == MultitouchHandler { last_touch_size: ev.value as u8, ..o }
                } else if ev.code == ecodes::ABS_MT_TRACKING_ID {
                    r is None && if ev.value == -1 {
                        f == MultitouchHandler { currently_touching: false, ..o }
                    } else {
                        f == MultitouchHandler { last_touch_id: v, currently_touching: true, ..o }
                    }
                } else {
                    r is None && f == o
                }
            },
    {
        if ev.event_type != ecodes::EV_ABS {
            // sync events need nothing; other types are very unlikely
            return None;
        }
        let v = #[verifier::truncate] (ev.value as u16);
        if ev.code == ecodes::ABS_MT_SLOT {
            self.last_finger_id = v;
            None
        } else if ev.code == ecodes::ABS_MT_POSITION_X {
            self.last_x = MTWIDTH - v;
            None
        } else if ev.code == ecodes::ABS_MT_POSITION_Y {
            self.last_y = MTHEIGHT - v;
            Some(
                Touch {
                    touch_id: self.last_touch_id,
                    finger_id: self.last_finger_id,
                    y: self.last_y,
                    x: self.last_x,
                },
            )
        } else if ev.code == ecodes::ABS_MT_TOUCH_MINOR {
            // potentially incorrect
            self.last_touch_size = #[verifier::truncate] (ev.value as u8);
            None
        } else if ev.code == ecodes::ABS_MT_TRACKING_ID {
            if ev.value == -1 {
                self.currently_touching = false;
            } else {
                self.last_touch_id = v;
                self.currently_touching = true;
            }
            None
        } else {
            // ABS_MT_ORIENTATION, ABS_MT_TOUCH_MAJOR, ABS_MT_PRESSURE and
            // anything else are not used
            None
        }
    }
}

/// The touchscreen's positions are mirrored: after an x report then a y
/// report, the touch reported is at both, each mirrored against the
/// touchscreen's size.
pub proof fn lemma_touch_at_mirrored_position(o: MultitouchHandler, xr: RawInputEvent, yr: RawInputEvent)
    requires
        xr.event_type == ecodes::EV_ABS,
        xr.code == ecodes::ABS_MT_POSITION_X,
        (xr.value as u16) <= MTWIDTH,
        yr.event_type == ecodes::EV_ABS,
        yr.code == ecodes::ABS_MT_POSITION_Y,
        (yr.value as u16) <= MTHEIGHT,
    ensures
        spec_touch_step(o, xr).0 is None,
        spec_touch_step(spec_touch_step(o, xr).1, yr).0 == Some(
            Touch {
                touch_id: o.last_touch_id,
                finger_id: o.last_finger_id,
                y: (MTHEIGHT - (yr.value as u16)) as u16,
                x: (MTWIDTH - (xr.value as u16)) as u16,
            },
        ),
{
}

/// A touch reported after a new tracking id and a slot report carries that
/// id as its touch and that slot as its finger, and the handler is touching.
pub proof fn lemma_touch_carries_ids(
    o: MultitouchHandler,
    track: RawInputEvent,
    slot: RawInputEvent,
    yr: RawInputEvent,
)
    requires
        track.event_type == ecodes::EV_ABS,
        track.code == ecodes::ABS_MT_TRACKING_ID,
        track.value != -1,
        slot.event_type == ecodes::EV_ABS,
        slot.code == ecodes::ABS_MT_SLOT,
        yr.event_type == ecodes::EV_ABS,
        yr.code == ecodes::ABS_MT_POSITION_Y,
    ensures
        spec_touch_step(spec_touch_step(o, track).1, slot).1.currently_touching,
        spec_touch_step(spec_touch_step(spec_touch_step(o, track).1, slot).1, yr).0 matches Some(t) && t.touch_id
            == track.value as u16 && t.finger_id == slot.value as u16,
{
}

} // verus!
