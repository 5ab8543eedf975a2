use vstd::prelude::*;
use vstd::string::*;

use crate::handlers::multitouch::{MTHEIGHT, MTWIDTH};
use crate::handlers::wacom::WACOMHEIGHT;
use crate::input::ecodes;
use crate::input::{RawInputEvent, WacomPen};

verus! {

// One handler for all three input devices, told apart by their names.
// Positions in the events are in the device's own units, turned into the
// display's orientation; scaled by the ratio of display size to device size
// they give display coordinates.

/// What the digitizer last reported.
#[derive(Clone, Copy, Debug, PartialEq, Eq, Structural)]
pub struct WacomState {
    pub last_x: u16,
    pub last_y: u16,
    pub last_xtilt: u16,
    pub last_ytilt: u16,
    pub last_dist: u16,
    pub last_pressure: u16,
    pub previous_x: u16,
    pub previous_y: u16,
}

#[derive(Clone, Copy, Debug, PartialEq, Eq, Structural)]
pub enum WacomEvent {
    InstrumentChange { pen: WacomPen, state: bool },
    Hover { y: u16, x: u16, distance: u16, tilt_x: u16, tilt_y: u16 },
    Draw { y: u16, x: u16, pressure: u16, tilt_x: u16, tilt_y: u16, prevy: u16, prevx: u16 },
    Unknown,
}

/// Whether LEFT, MIDDLE and RIGHT were last seen down.
#[derive(Clone, Copy, Debug)]
pub struct GPIOState {
    pub states: [bool; 3],
}

/// What the touchscreen last reported.
#[derive(Clone, Copy, Debug, PartialEq, Eq, Structural)]
pub struct MultitouchState {
    pub last_touch_size: u8,
    pub last_touch_id: u16,
    pub last_x: u16,
    pub last_y: u16,
    pub last_finger_id: u16,
    pub currently_touching: bool,
}

#[derive(Clone, Copy, Debug, PartialEq, Eq, Structural)]
pub enum MultitouchEvent {
    Touch { gesture_seq: u16, finger_id: u16, y: u16, x: u16 },
    Unknown,
}

#[derive(Clone, Copy, Debug, PartialEq, Eq, Structural)]
pub enum PhysicalButton {
    LEFT,
    MIDDLE,
    RIGHT,
}

#[derive(Clone, Copy, Debug, PartialEq, Eq, Structural)]
pub enum GPIOEvent {
    Press { button: PhysicalButton },
    Unpress { button: PhysicalButton },
    Unknown,
}

#[derive(Clone, Copy, Debug, PartialEq, Eq, Structural)]
pub enum InputEvent {
    WacomEvent { event: WacomEvent },
    MultitouchEvent { event: MultitouchEvent },
    GPIO { event: GPIOEvent },
    Unknown {},
}

impl Default for InputEvent {
    fn default() -> (e: InputEvent)
        ensures
            e == (InputEvent::Unknown {  }),
    {
        InputEvent::Unknown {  }
    }
}

/// The decoding state of all three devices.
pub struct UnifiedInputHandler {
    pub wacom: WacomState,
    pub gpio: GPIOState,
    pub mt: MultitouchState,
}

/// The position reports of `ev` can be mirrored, for the device it is from.
pub open spec fn positions_fit(device: Seq<char>, ev: RawInputEvent) -> bool {
    &&& (device == "Wacom I2C Digitizer"@ && ev.event_type == ecodes::EV_ABS && ev.code
        == ecodes::ABS_X) ==> (ev.value as u16) <= WACOMHEIGHT
    &&& (device == "cyttsp5_mt"@ && ev.event_type == ecodes::EV_ABS && ev.code
        == ecodes::ABS_MT_POSITION_X) ==> (ev.value as u16) <= MTWIDTH
    &&& (device == "cyttsp5_mt"@ && ev.event_type == ecodes::EV_ABS && ev.code
        == ecodes::ABS_MT_POSITION_Y) ==> (ev.value as u16) <= MTHEIGHT
}

/// The button of a key code, and its slot in the state (LEFT, MIDDLE, RIGHT).
pub open spec fn button_of(code: u16) -> Option<(PhysicalButton, int)> {
    if code == ecodes::KEY_HOME {
        Some((PhysicalButton::MIDDLE, 1))
    } else if code == ecodes::KEY_LEFT {
        Some((PhysicalButton::LEFT, 0))
    } else if code == ecodes::KEY_RIGHT {
        Some((PhysicalButton::RIGHT, 2))
    } else {
        None
    }
}

/// What the digitizer's handler reports for `ev`, and its state after it.
pub open spec fn spec_wacom_step(o: WacomState, ev: RawInputEvent) -> (Option<InputEvent>, WacomState) {
    if ev.event_type == ecodes::EV_KEY {
        if exists|p: WacomPen| p.spec_code() == ev.code {
            let pen = choose|p: WacomPen| p.spec_code() == ev.code;
            (
                Some(
                    InputEvent::WacomEvent {
                        event: WacomEvent::InstrumentChange { pen, state: ev.value != 0 },
                    },
                ),
                o,
            )
        } else {
            (None, o)
        }
    } else if ev.event_type == ecodes::EV_ABS {
        let v = ev.value as u16;
        if ev.code == ecodes::ABS_DISTANCE {
            (
                Some(
                    InputEvent::WacomEvent {
                        event: WacomEvent::Hover {
                            y: o.last_y,
                            x: o.last_x,
                            distance: v,
                            tilt_x: o.last_xtilt,
                            tilt_y: o.last_ytilt,
                        },
                    },
                ),
                WacomState { last_dist: v, ..o },
            )
        } else if ev.code == ecodes::ABS_TILT_X {
            (None, WacomState { last_xtilt: v, ..o })
        } else if ev.code == ecodes::ABS_TILT_Y {
            (None, WacomState { last_ytilt: v, ..o })
        } else if ev.code == ecodes::ABS_PRESSURE {
            (
                Some(
                    InputEvent::WacomEvent {
                        event: WacomEvent::Draw {
                            x: o.last_x,
                            y: o.last_y,
                            pressure: v,
                            tilt_x: o.last_xtilt,
                            tilt_y: o.last_ytilt,
                            prevy: o.previous_y,
                            prevx: o.previous_x,
                        },
                    },
                ),
                WacomState { last_pressure: v, ..o },
            )
        } else if ev.code == ecodes::ABS_X {
            // x and y are swapped on the tablet
            (None, WacomState { previous_y: o.last_y, last_y: (WACOMHEIGHT - v) as u16, ..o })
        } else if ev.code == ecodes::ABS_Y {
            (None, WacomState { previous_x: o.last_x, last_x: v, ..o })
        } else {
            (None, o)
        }
    } else {
        (None, o)
    }
}

/// What the touchscreen's handler reports for `ev`, and its state after it.
pub open spec fn spec_multitouch_step(o: MultitouchState, ev: RawInputEvent) -> (Option<InputEvent>, MultitouchState) {
    if ev.event_type == ecodes::EV_ABS {
        let v = ev.value as u16;
        if ev.code == ecodes::ABS_MT_SLOT {
            (None, MultitouchState { last_finger_id: v, ..o })
        } else if ev.code == ecodes::ABS_MT_POSITION_X {
            (None, MultitouchState { last_x: (MTWIDTH - v) as u16, ..o })
        } else if ev.code == ecodes::ABS_MT_POSITION_Y {
            (
                Some(
                    InputEvent::MultitouchEvent {
                        event: MultitouchEvent::Touch {
                            gesture_seq: o.last_touch_id,
                            finger_id: o.last_finger_id,
                            y: (MTHEIGHT - v) as u16,
                            x: o.last_x,
                        },
                    },
                ),
                MultitouchState { last_y: (MTHEIGHT - v) as u16, ..o },
            )
        } else if ev.code == ecodes::ABS_MT_TOUCH_MINOR {
            (None, MultitouchState { last_touch_size: ev.value as u8, ..o })
        } else if ev.code == ecodes::ABS_MT_TRACKING_ID {
            if ev.value == -1 {
                (None, MultitouchState { currently_touching: false, ..o })
            } else {
                (None, MultitouchState { last_touch_id: v, currently_touching: true, ..o })
            }
        } else {
            (None, o)
        }
    } else {
        (None, o)
    }
}

/// What the buttons' handler reports for `ev`, and the button states after it.
pub open spec fn spec_gpio_step(states: Seq<bool>, ev: RawInputEvent) -> (Option<InputEvent>, Seq<bool>) {
    if ev.event_type == ecodes::EV_KEY {
        match button_of(ev.code) {
            Some((button, slot)) => (
                if (ev.value != 0) == states[slot] {
                    None
                } else if ev.value != 0 {
                    Some(InputEvent::GPIO { event: GPIOEvent::Press { button } })
                } else {
                    Some(InputEvent::GPIO { event: GPIOEvent::Unpress { button } })
                },
                states.update(slot, ev.value != 0),
            ),
            None => (None, states),
        }
    } else {
        (None, states)
    }
}

impl UnifiedInputHandler {
    /// A handler that has seen nothing yet.
    pub fn new() -> (h: UnifiedInputHandler)
        ensures
            h.gpio.states@ == seq![false, false, false],
            h.wacom == (WacomState {
                last_x: 0,
                last_y: 0,
                last_xtilt: 0,
                last_ytilt: 0,
                last_dist: 0,
                last_pressure: 0,
                previous_x: 0,
                previous_y: 0,
            }),
            h.mt == (MultitouchState {
                last_touch_size: 0,
                last_touch_id: 0,
                last_x: 0,
                last_y: 0,
                last_finger_id: 0,
                currently_touching: false,
            }),
    {
        let h = UnifiedInputHandler {
            gpio: GPIOState { states: [false; 3] },
            wacom: WacomState {
                last_x: 0,
                last_y: 0,
                last_xtilt: 0,
                last_ytilt: 0,
                last_dist: 0,
                last_pressure: 0,
                previous_x: 0,
                previous_y: 0,
            },
            mt: MultitouchState {
                last_touch_size: 0,
                last_touch_id: 0,
                last_x: 0,
                last_y: 0,
                last_finger_id: 0,
                currently_touching: false,
            },
        };
        assert(h.gpio.states@ =~= seq![false, false, false]);
        h
    }

    /// One event of the digitizer: a tool change, a hover on a distance
    /// report, a draw on a pressure report; axis reports are noted.
    pub fn wacom_handler(&mut self, ev: &RawInputEvent) -> (r: Option<InputEvent>)
        requires
            (ev.event_type == ecodes::EV_ABS && ev.code == ecodes::ABS_X) ==> (ev.value as u16)
                <= WACOMHEIGHT,
        ensures
            (r, final(self).wacom) == spec_wacom_step(old(self).wacom, *ev),
            final(self).gpio.states@ == old(self).gpio.states@,
            final(self).mt == old(self).mt,
    {
        if ev.event_type == ecodes::EV_KEY {
            // key (device detected - device out of range etc.)
            match WacomPen::from_code(ev.code) {
                Some(pen) => {
                    proof {
                        let chosen = choose|p: WacomPen| p.spec_code() == ev.code;
                        assert(chosen.spec_code() == ev.code);
                    }
                    let event = WacomEvent::InstrumentChange { pen, state: ev.value != 0 };
                    Some(InputEvent::WacomEvent { event })
                },
                None => None,
            }
        } else if ev.event_type == ecodes::EV_ABS {
            let v = #[verifier::truncate] (ev.value as u16);
            if ev.code == ecodes::ABS_DISTANCE {
                // distance up to 255
                self.wacom.last_dist = v;
                let event = WacomEvent::Hover {
                    y: self.wacom.last_y,
                    x: self.wacom.last_x,
                    distance: self.wacom.last_dist,
                    tilt_x: self.wacom.last_xtilt,
                    tilt_y: self.wacom.last_ytilt,
                };
                Some(InputEvent::WacomEvent { event })
            } else if ev.code == ecodes::ABS_TILT_X {
                // xtilt -9000 to 9000
                self.wacom.last_xtilt = v;
                None
            } else if ev.code == ecodes::ABS_TILT_Y {
                // ytilt -9000 to 9000
                self.wacom.last_ytilt = v;
                None
            } else if ev.code == ecodes::ABS_PRESSURE {
                // contact made with pressure val up to 4095
                self.wacom.last_pressure = v;
                let event = WacomEvent::Draw {
                    x: self.wacom.last_x,
                    y: self.wacom.last_y,
                    pressure: self.wacom.last_pressure,
                    tilt_x: self.wacom.last_xtilt,
                    tilt_y: self.wacom.last_ytilt,
                    prevy: self.wacom.previous_y,
                    prevx: self.wacom.previous_x,
                };
                Some(InputEvent::WacomEvent { event })
            } else if ev.code == ecodes::ABS_X {
                // x and y are swapped on the tablet
                self.wacom.previous_y = self.wacom.last_y;
                self.wacom.last_y = WACOMHEIGHT - v;
                None
            } else if ev.code == ecodes::ABS_Y {
                self.wacom.previous_x = self.wacom.last_x;
                self.wacom.last_x = v;
                None
            } else {
                None
            }
        } else {
            None
        }
    }

    /// One event of the touchscreen: a y position completes a touch, which
    /// is reported with the last x position; the other axes are noted.
    pub fn multitouch_handler(&mut self, ev: &RawInputEvent) -> (r: Option<InputEvent>)
        requires
            (ev.event_type == ecodes::EV_ABS && ev.code == ecodes::ABS_MT_POSITION_X) ==> (ev.value
                as u16) <= MTWIDTH,
            (ev.event_type == ecodes::EV_ABS && ev.code == ecodes::ABS_MT_POSITION_Y) ==> (ev.value
                as u16) <= MTHEIGHT,
        ensures
            (r, final(self).mt) == spec_multitouch_step(old(self).mt, *ev),
            final(self).gpio.states@ == old(self).gpio.states@,
            final(self).wacom == old(self).wacom,
    {
        if ev.event_type != ecodes::EV_ABS {
            // sync events need nothing; other types are very unlikely
            return None;
        }
        let v = #[verifier::truncate] (ev.value as u16);
        if ev.code == ecodes::ABS_MT_SLOT {
            self.mt.last_finger_id = v;
            None
        } else if ev.code == ecodes::ABS_MT_POSITION_X {
            self.mt.last_x = MTWIDTH - v;
            None
        } else if ev.code == ecodes::ABS_MT_POSITION_Y {
            self.mt.last_y = MTHEIGHT - v;
            let event = MultitouchEvent::Touch {
                gesture_seq: self.mt.last_touch_id,
                finger_id: self.mt.last_finger_id,
                y: self.mt.last_y,
                x: self.mt.last_x,
            };
            Some(InputEvent::MultitouchEvent { event })
        } else if ev.code == ecodes::ABS_MT_TOUCH_MINOR {
            // potentially incorrect
            self.mt.last_touch_size = #[verifier::truncate] (ev.value as u8);
            None
        } else if ev.code == ecodes::ABS_MT_TRACKING_ID {
            if ev.value == -1 {
                self.mt.currently_touching = false;
            } else {
                self.mt.last_touch_id = v;
                self.mt.currently_touching = true;
            }
            None
        } else {
            // ABS_MT_ORIENTATION, ABS_MT_TOUCH_MAJOR and ABS_MT_PRESSURE are not used
            None
        }
    }

    /// One event of the buttons: a press or release is reported once, when
    /// the button changes its state.
    pub fn gpio_handler(&mut self, ev: &RawInputEvent) -> (r: Option<InputEvent>)
        ensures
            (r, final(self).gpio.states@) == spec_gpio_step(old(self).gpio.states@, *ev),
            final(self).wacom == old(self).wacom,
            final(self).mt == old(self).mt,
    {
        proof {
            assert(self.gpio.states@.len() == 3);
        }
        if ev.event_type != ecodes::EV_KEY {
            // sync events are safely ignored; anything else shouldn't happen
            return None;
        }
        let new_state = ev.value != 0;
        let (p, before_state) = if ev.code == ecodes::KEY_HOME {
            let ret = (PhysicalButton::MIDDLE, self.gpio.states[1]);
            self.gpio.states[1] = new_state;
            ret
        } else if ev.code == ecodes::KEY_LEFT {
            let ret = (PhysicalButton::LEFT, self.gpio.states[0]);
            self.gpio.states[0] = new_state;
            ret
        } else if ev.code == ecodes::KEY_RIGHT {
            let ret = (PhysicalButton::RIGHT, self.gpio.states[2]);
            self.gpio.states[2] = new_state;
            ret
        } else {
            return None;
        };
        // Edge trigger -- debouncing
        if new_state == before_state {
            return None;
        }
        let event = if new_state {
            GPIOEvent::Press { button: p }
        } else {
            GPIOEvent::Unpress { button: p }
        };
        Some(InputEvent::GPIO { event })
    }

    /// Hands an event to the handler of the device it came from, by the
    /// device's name; events of other devices are ignored.
    pub fn on_event(&mut self, device: &str, ev: &RawInputEvent) -> (r: Option<InputEvent>)
        requires
            positions_fit(device@, *ev),
        ensures
            device@ == "Wacom I2C Digitizer"@ ==> (r, final(self).wacom) == spec_wacom_step(old(self).wacom, *ev)
                && final(self).mt == old(self).mt && final(self).gpio.states@ == old(self).gpio.states@,
            device@ == "cyttsp5_mt"@ ==> (r, final(self).mt) == spec_multitouch_step(old(self).mt, *ev)
                && final(self).wacom == old(self).wacom && final(self).gpio.states@ == old(self).gpio.states@,
            device@ == "gpio-keys"@ ==> (r, final(self).gpio.states@) == spec_gpio_step(old(self).gpio.states@, *ev)
                && final(self).wacom == old(self).wacom && final(self).mt == old(self).mt,
            device@ != "Wacom I2C Digitizer"@ && device@ != "cyttsp5_mt"@ && device@ != "gpio-keys"@ ==> r is None
                && final(self).wacom == old(self).wacom && final(self).mt == old(self).mt
                && final(self).gpio.states@ == old(self).gpio.states@,
    {
        proof {
            reveal_strlit("Wacom I2C Digitizer");
            reveal_strlit("cyttsp5_mt");
            reveal_strlit("gpio-keys");
            // the three names differ in length
            assert("Wacom I2C Digitizer"@.len() == 19);
            assert("cyttsp5_mt"@.len() == 10);
            assert("gpio-keys"@.len() == 9);
        }
        let name = String::from_str(device);
        if name == String::from_str("Wacom I2C Digitizer") {
            self.wacom_handler(ev)
        } else if name == String::from_str("cyttsp5_mt") {
            self.multitouch_handler(ev)
        } else if name == String::from_str("gpio-keys") {
            self.gpio_handler(ev)
        } else {
            None
        }
    }
}

/// The buttons' handler is edge triggered: the same key event twice in a row
/// is reported at most once, and a key event is reported exactly when it
/// changes the button's state.
pub proof fn lemma_gpio_debounced(states: Seq<bool>, ev: RawInputEvent)
    requires
        states.len() == 3,
    ensures
        spec_gpio_step(spec_gpio_step(states, ev).1, ev).0 is None,
        spec_gpio_step(states, ev).0 is Some <==> spec_gpio_step(states, ev).1 != states,
{
    let after = spec_gpio_step(states, ev).1;
    if ev.event_type == ecodes::EV_KEY {
        if let Some((button, slot)) = button_of(ev.code) {
            if (ev.value != 0) == states[slot] {
                assert(after =~= states);
            } else {
                assert(after[slot] != states[slot]);
            }
        }
    }
}

/// The digitizer's axes are swapped: an ABS_Y report gives the pen's x. A
/// draw reported next is at that x, and its previous x is the x the pen was
/// at before that report; y, tilt and previous y are as they were.
pub proof fn lemma_draw_follows_x(o: WacomState, report: RawInputEvent, press: RawInputEvent)
    requires
        report.event_type == ecodes::EV_ABS,
        report.code == ecodes::ABS_Y,
        press.event_type == ecodes::EV_ABS,
        press.code == ecodes::ABS_PRESSURE,
    ensures
        spec_wacom_step(spec_wacom_step(o, report).1, press).0 == Some(
            InputEvent::WacomEvent {
                event: WacomEvent::Draw {
                    y: o.last_y,
                    x: report.value as u16,
                    pressure: press.value as u16,
                    tilt_x: o.last_xtilt,
                    tilt_y: o.last_ytilt,
                    prevy: o.previous_y,
                    prevx: o.last_x,
                },
            },
        ),
{
}

/// An ABS_X report gives the pen's y, mirrored against the digitizer's
/// height. A draw reported next is at that y, and its previous y is the y the
/// pen was at before that report; x, tilt and previous x are as they were.
pub proof fn lemma_draw_follows_y(o: WacomState, report: RawInputEvent, press: RawInputEvent)
    requires
        report.event_type == ecodes::EV_ABS,
        report.code == ecodes::ABS_X,
        (report.value as u16) <= WACOMHEIGHT,
        press.event_type == ecodes::EV_ABS,
        press.code == ecodes::ABS_PRESSURE,
    ensures
        spec_wacom_step(spec_wacom_step(o, report).1, press).0 == Some(
            InputEvent::WacomEvent {
                event: WacomEvent::Draw {
                    y: (WACOMHEIGHT - (report.value as u16)) as u16,
                    x: o.last_x,
                    pressure: press.value as u16,
                    tilt_x: o.last_xtilt,
                    tilt_y: o.last_ytilt,
                    prevy: o.last_y,
                    prevx: o.previous_x,
                },
            },
        ),
{
}

/// A key pressed after it was released is reported as the press of its
/// button, and released after it was pressed as the release of it: KEY_LEFT
/// is LEFT, KEY_HOME is MIDDLE, KEY_RIGHT is RIGHT.
pub proof fn lemma_gpio_keys_name_buttons(states: Seq<bool>, ev: RawInputEvent)
    requires
        states.len() == 3,
        ev.event_type == ecodes::EV_KEY,
        ev.code == ecodes::KEY_LEFT || ev.code == ecodes::KEY_HOME || ev.code == ecodes::KEY_RIGHT,
    ensures
        ({
            let button = if ev.code == ecodes::KEY_LEFT {
                PhysicalButton::LEFT
            } else if ev.code == ecodes::KEY_HOME {
                PhysicalButton::MIDDLE
            } else {
                PhysicalButton::RIGHT
            };
            let up = RawInputEvent { value: 0, ..ev };
            let down = RawInputEvent { value: 1, ..ev };
            &&& spec_gpio_step(spec_gpio_step(states, up).1, down).0 == Some(
                InputEvent::GPIO { event: GPIOEvent::Press { button } },
            )
            &&& spec_gpio_step(spec_gpio_step(states, down).1, up).0 == Some(
                InputEvent::GPIO { event: GPIOEvent::Unpress { button } },
            )
        }),
{
}

/// The touchscreen's positions are mirrored: after an x report then a y
/// report, the touch reported is at both, each mirrored against the
/// touchscreen's size, for the current touch sequence and finger.
pub proof fn lemma_touch_at_mirrored_position(o: MultitouchState, xr: RawInputEvent, yr: RawInputEvent)
    requires
        xr.event_type == ecodes::EV_ABS,
        xr.code == ecodes::ABS_MT_POSITION_X,
        (xr.value as u16) <= MTWIDTH,
        yr.event_type == ecodes::EV_ABS,
        yr.code == ecodes::ABS_MT_POSITION_Y,
        (yr.value as u16) <= MTHEIGHT,
    ensures
        spec_multitouch_step(o, xr).0 is None,
        spec_multitouch_step(spec_multitouch_step(o, xr).1, yr).0 == Some(
            InputEvent::MultitouchEvent {
                event: MultitouchEvent::Touch {
                    gesture_seq: o.last_touch_id,
                    finger_id: o.last_finger_id,
                    y: (MTHEIGHT - (yr.value as u16)) as u16,
                    x: (MTWIDTH - (xr.value as u16)) as u16,
                },
            },
        ),
{
}

} // verus!
