use vstd::prelude::*;

use crate::device::InputDevicePlacement;
use crate::geometry::{Point2, Vector2};
use crate::input::rotate::{CoordinatePart, InputDeviceRotation};

/// The ev codes in use
pub mod ecodes;
/// Rotation of the input devices into portrait orientation
pub mod rotate;
/// Decoding of physical button events
pub mod gpio;
/// Decoding of Wacom digitizer events
pub mod wacom;
/// Decoding of multitouch events
pub mod multitouch;
/// Recognising the input devices from their capabilities
pub mod scan;

verus! {

/// The three input devices of the tablet.
#[derive(Clone, Copy, Debug, PartialEq, Eq, Hash, Structural)]
pub enum InputDevice {
    Wacom,
    Multitouch,
    GPIO,
    Unknown,
}

/// One event as the kernel's evdev interface delivers it.
#[derive(Clone, Copy, Debug, PartialEq, Eq, Structural)]
pub struct RawInputEvent {
    pub event_type: u16,
    pub code: u16,
    pub value: i32,
}

/// The decoding state of one input device.
pub enum InputDeviceState {
    WacomState(wacom::WacomState),
    MultitouchState(multitouch::MultitouchState),
    GPIOState(gpio::GPIOState),
}

impl InputDeviceState {
    /// A fresh decoding state for `dev`; `InputDevice::Unknown` has none.
    pub fn new(dev: InputDevice) -> (r: InputDeviceState)
        requires
            dev != InputDevice::Unknown,
        ensures
            dev == InputDevice::GPIO ==> (r matches InputDeviceState::GPIOState(s) && s@
                == gpio::GPIOState::spec_initial()),
            dev == InputDevice::Wacom ==> (r matches InputDeviceState::WacomState(s) && s
                == wacom::WacomState::spec_initial()),
            dev == InputDevice::Multitouch ==> (r matches InputDeviceState::MultitouchState(s)
                && s.fingers@ == Map::<i32, Finger>::empty() && s.current_slot == 0),
    {
        match dev {
            InputDevice::GPIO => InputDeviceState::GPIOState(gpio::GPIOState::default()),
            InputDevice::Wacom => InputDeviceState::WacomState(wacom::WacomState::default()),
            _ => InputDeviceState::MultitouchState(multitouch::MultitouchState::default()),
        }
    }
}

/// The tools and buttons of the Wacom digitizer.
#[derive(Clone, Copy, Debug, PartialEq, Eq, Structural)]
pub enum WacomPen {
    /// When the pen gets into the reach of the digitizer
    /// a tool will be selected. This is useful for software
    /// to know whether the user is hovering the backside (rubber)
    /// or frontside (pen) of a stylus above the screen.
    /// Both at once shouldn't be possible.
    ToolPen,
    ToolRubber,
    /// This is the pen making contact with the display
    Touch,
    Stylus,
    Stylus2,
}

impl WacomPen {
    pub open spec fn spec_code(self) -> u16 {
        match self {
            WacomPen::ToolPen => ecodes::BTN_TOOL_PEN,
            WacomPen::ToolRubber => ecodes::BTN_TOOL_RUBBER,
            WacomPen::Touch => ecodes::BTN_TOUCH,
            WacomPen::Stylus => ecodes::BTN_STYLUS,
            WacomPen::Stylus2 => ecodes::BTN_STYLUS2,
        }
    }

    /// The key code that the digitizer reports for this tool.
    pub fn code(&self) -> (c: u16)
        ensures
            c == self.spec_code(),
    {
        match self {
            WacomPen::ToolPen => ecodes::BTN_TOOL_PEN,
            WacomPen::ToolRubber => ecodes::BTN_TOOL_RUBBER,
            WacomPen::Touch => ecodes::BTN_TOUCH,
            WacomPen::Stylus => ecodes::BTN_STYLUS,
            WacomPen::Stylus2 => ecodes::BTN_STYLUS2,
        }
    }

    /// The tool that reports `code`, if any does.
    pub fn from_code(code: u16) -> (r: Option<WacomPen>)
        ensures
            r matches Some(p) ==> p.spec_code() == code,
            r is None ==> forall|p: WacomPen| p.spec_code() != code,
    {
        if code == ecodes::BTN_TOOL_PEN {
            Some(WacomPen::ToolPen)
        } else if code == ecodes::BTN_TOOL_RUBBER {
            Some(WacomPen::ToolRubber)
        } else if code == ecodes::BTN_TOUCH {
            Some(WacomPen::Touch)
        } else if code == ecodes::BTN_STYLUS {
            Some(WacomPen::Stylus)
        } else if code == ecodes::BTN_STYLUS2 {
            Some(WacomPen::Stylus2)
        } else {
            None
        }
    }
}

#[derive(Clone, Copy, Debug, PartialEq, Eq, Structural)]
pub enum WacomEventType {
    InstrumentChange,
    Hover,
    Draw,
    Unknown,
}

/// A finger on the touchscreen. `pos` holds the position in the device's
/// portrait coordinates, before scaling to the display.
#[derive(Clone, Copy, Debug, PartialEq, Eq, Structural)]
pub struct Finger {
    pub tracking_id: i32,
    pub pos: Point2<u16>,
    /// Report motion at SYN_REPORT?
    pub pos_updated: bool,
    pub last_pressed: bool,
    pub pressed: bool,
}

impl Finger {
    pub open spec fn spec_default() -> Finger {
        Finger {
            tracking_id: -1i32,
            pos: Point2 { x: u16::MAX, y: u16::MAX },
            pos_updated: false,
            last_pressed: false,
            pressed: false,
        }
    }
}

impl Default for Finger {
    /// A finger not yet seen: tracking id -1, position at the far corner.
    fn default() -> (f: Finger)
        ensures
            f == Finger::spec_default(),
    {
        Finger {
            tracking_id: -1,  // -1 should never be seen by a InputEvent receiver
            pos: Point2 { x: u16::MAX, y: u16::MAX },
            pos_updated: false,
            last_pressed: false,
            pressed: false,
        }
    }
}

#[derive(Clone, Copy, Debug, PartialEq, Eq, Structural)]
pub enum MultitouchEvent {
    Press { finger: Finger },
    Release { finger: Finger },
    Move { finger: Finger },
    Unknown,
}

impl MultitouchEvent {
    /// The finger that the event is about, if any.
    pub fn finger(&self) -> (r: Option<&Finger>)
        ensures
            r == match *self {
                MultitouchEvent::Press { finger } => Some(&finger),
                MultitouchEvent::Release { finger } => Some(&finger),
                MultitouchEvent::Move { finger } => Some(&finger),
                MultitouchEvent::Unknown => None,
            },
    {
        match self {
            MultitouchEvent::Press { finger } => Some(finger),
            MultitouchEvent::Release { finger } => Some(finger),
            MultitouchEvent::Move { finger } => Some(finger),
            MultitouchEvent::Unknown => None,
        }
    }
}

#[derive(Clone, Copy, Debug, PartialEq, Eq, Structural)]
pub enum PhysicalButton {
    LEFT,
    MIDDLE,
    RIGHT,
    POWER,
    WAKEUP,
}

#[derive(Clone, Copy, Debug, PartialEq, Eq, Structural)]
pub enum GPIOEvent {
    Press { button: PhysicalButton },
    Unpress { button: PhysicalButton },
    Unknown,
}

/// How an absolute axis of a device maps to portrait coordinates: the
/// placement of the device, the size it reports, and the size after rotation
/// that inversions mirror against.
#[derive(Clone, Copy, Debug, PartialEq, Eq, Structural)]
pub struct AxisMapping {
    pub placement: InputDevicePlacement,
    pub orig_size: Vector2<u16>,
    pub width: u16,
    pub height: u16,
}

impl AxisMapping {
    /// Rotation and inversion of `seg` stay within `u16`.
    pub open spec fn fits(self, seg: CoordinatePart) -> bool {
        &&& self.placement.rotation.part_fits(seg, self.orig_size)
        &&& match self.placement.rotation.spec_rotate_part(seg, self.orig_size) {
            CoordinatePart::X(x) => self.placement.invert_x ==> x <= self.width,
            CoordinatePart::Y(y) => self.placement.invert_y ==> y <= self.height,
        }
    }

    pub open spec fn spec_map(self, seg: CoordinatePart) -> CoordinatePart {
        match self.placement.rotation.spec_rotate_part(seg, self.orig_size) {
            CoordinatePart::X(x) => CoordinatePart::X(
                if self.placement.invert_x {
                    (self.width - x) as u16
                } else {
                    x
                },
            ),
            CoordinatePart::Y(y) => CoordinatePart::Y(
                if self.placement.invert_y {
                    (self.height - y) as u16
                } else {
                    y
                },
            ),
        }
    }

    /// Whether `seg` can be mapped: its rotation and inversion stay within `u16`.
    pub fn can_map(&self, seg: CoordinatePart) -> (b: bool)
        ensures
            b == self.fits(seg),
    {
        let rotation = self.placement.rotation;
        let size = self.orig_size;
        let rotatable = match seg {
            CoordinatePart::X(x) => match rotation {
                InputDeviceRotation::Rot180 | InputDeviceRotation::Rot270 => x <= size.x,
                _ => true,
            },
            CoordinatePart::Y(y) => match rotation {
                InputDeviceRotation::Rot90 | InputDeviceRotation::Rot180 => y <= size.y,
                _ => true,
            },
        };
        if !rotatable {
            return false;
        }
        match rotation.rotate_part(seg, &size) {
            CoordinatePart::X(x) => !self.placement.invert_x || x <= self.width,
            CoordinatePart::Y(y) => !self.placement.invert_y || y <= self.height,
        }
    }

    /// Rotates `seg` by the device's placement, then applies its inversions.
    pub fn map(&self, seg: CoordinatePart) -> (r: CoordinatePart)
        requires
            self.fits(seg),
        ensures
            r == self.spec_map(seg),
    {
        let rotated = self.placement.rotation.rotate_part(seg, &self.orig_size);
        match rotated {
            CoordinatePart::X(x) => CoordinatePart::X(
                if self.placement.invert_x {
                    self.width - x
                } else {
                    x
                },
            ),
            CoordinatePart::Y(y) => CoordinatePart::Y(
                if self.placement.invert_y {
                    self.height - y
                } else {
                    y
                },
            ),
        }
    }
}

/// An event of one of the three input devices. Positions are in device
/// units, turned into portrait orientation.
#[derive(Clone, Copy, Debug, PartialEq, Eq, Structural)]
pub enum InputEvent {
    WacomEvent { event: wacom::WacomEvent },
    MultitouchEvent { event: MultitouchEvent },
    GPIO { event: GPIOEvent },
    Unknown {},
}

impl Default for InputEvent {
    fn default() -> (e: InputEvent)
        ensures
            e == (InputEvent::Unknown {  }),
    {
        InputEvent::Unknown {  }
    }
}

/// The events of the touchscreen, as input events.
pub open spec fn touch_events(events: Seq<MultitouchEvent>) -> Seq<InputEvent> {
    events.map_values(|e: MultitouchEvent| InputEvent::MultitouchEvent { event: e })
}

/// At most one event, as a sequence.
pub open spec fn one_event(e: Option<InputEvent>) -> Seq<InputEvent> {
    match e {
        Some(e) => seq![e],
        None => Seq::empty(),
    }
}

/// The mapping can take the position reports of `ev` for the device of `state`.
pub open spec fn decode_fits(state: InputDeviceState, ev: RawInputEvent, mapping: AxisMapping) -> bool {
    match state {
        InputDeviceState::WacomState(_) => wacom::position_fits(ev, mapping),
        InputDeviceState::MultitouchState(_) => multitouch::position_fits(ev, mapping),
        InputDeviceState::GPIOState(_) => true,
    }
}

/// Whether `decode` can take `ev` for the device of `state` with `mapping`.
pub fn can_decode(state: &InputDeviceState, ev: &RawInputEvent, mapping: &AxisMapping) -> (b: bool)
    ensures
        b == decode_fits(*state, *ev, *mapping),
{
    let position = if ev.event_type != ecodes::EV_ABS {
        None
    } else {
        match state {
            InputDeviceState::WacomState(_) => if ev.code == ecodes::ABS_X {
                Some(CoordinatePart::X(#[verifier::truncate] (ev.value as u16)))
            } else if ev.code == ecodes::ABS_Y {
                Some(CoordinatePart::Y(#[verifier::truncate] (ev.value as u16)))
            } else {
                None
            },
            InputDeviceState::MultitouchState(_) => if ev.code == ecodes::ABS_MT_POSITION_X {
                Some(CoordinatePart::X(#[verifier::truncate] (ev.value as u16)))
            } else if ev.code == ecodes::ABS_MT_POSITION_Y {
                Some(CoordinatePart::Y(#[verifier::truncate] (ev.value as u16)))
            } else {
                None
            },
            InputDeviceState::GPIOState(_) => None,
        }
    };
    match position {
        Some(seg) => mapping.can_map(seg),
        None => true,
    }
}

/// Wraps each event of the touchscreen as an input event.
fn wrap_touch_events(events: Vec<MultitouchEvent>) -> (r: Vec<InputEvent>)
    ensures
        r@ == touch_events(events@),
{
    let mut r: Vec<InputEvent> = Vec::new();
    let n = events.len();
    for i in 0..n
        invariant
            n == events@.len(),
            r@ == touch_events(events@.take(i as int)),
    {
        r.push(InputEvent::MultitouchEvent { event: events[i] });
        proof {
            assert(touch_events(events@.take(i + 1)) =~= touch_events(events@.take(i as int)).push(
                InputEvent::MultitouchEvent { event: events@[i as int] },
            ));
        }
    }
    proof {
        assert(events@.take(n as int) =~= events@);
    }
    r
}

/// Decodes one event of the device whose decoding state is `state`: the
/// digitizer and the buttons report at most one event, the touchscreen one
/// per finger on a sync report.
pub fn decode(ev: &RawInputEvent, state: &mut InputDeviceState, mapping: &AxisMapping) -> (r: Vec<InputEvent>)
    requires
        decode_fits(*old(state), *ev, *mapping),
    ensures
        match (*old(state), *final(state)) {
            (InputDeviceState::WacomState(o), InputDeviceState::WacomState(f)) => {
                &&& f == wacom::spec_decode_state(o, *ev, *mapping)
                &&& r@ == one_event(
                    match wacom::spec_decode_event(o, *ev) {
                        Some(e) => Some(InputEvent::WacomEvent { event: e }),
                        None => None,
                    },
                )
            },
            (InputDeviceState::GPIOState(o), InputDeviceState::GPIOState(f)) => {
                &&& f@ == gpio::spec_decode_state(o@, *ev)
                &&& r@ == one_event(
                    match gpio::spec_decode_event(*ev) {
                        Some(e) => Some(InputEvent::GPIO { event: e }),
                        None => None,
                    },
                )
            },
            (InputDeviceState::MultitouchState(o), InputDeviceState::MultitouchState(f)) => {
                &&& f.current_slot == multitouch::spec_next_slot(o.current_slot, *ev)
                &&& multitouch::is_report(*ev) ==> f.fingers@ == multitouch::spec_after_report(o.fingers@)
                    && exists|order: Seq<(i32, Finger)>|
                    multitouch::is_listing(order, o.fingers@) && r@ == touch_events(
                        multitouch::report_events(order),
                    )
                &&& !multitouch::is_report(*ev) ==> r@ == Seq::<InputEvent>::empty() && f.fingers@
                    == multitouch::spec_next_fingers(o.fingers@, o.current_slot, *ev, *mapping)
            },
            _ => false,
        },
{
    match state {
        InputDeviceState::WacomState(s) => {
            let ghost before = *s;
            let mut r: Vec<InputEvent> = Vec::new();
            match wacom::decode(ev, s, mapping) {
                Some(e) => r.push(InputEvent::WacomEvent { event: e }),
                None => {},
            }
            proof {
                assert(r@ =~= one_event(
                    match wacom::spec_decode_event(before, *ev) {
                        Some(e) => Some(InputEvent::WacomEvent { event: e }),
                        None => None,
                    },
                ));
            }
            r
        },
        InputDeviceState::GPIOState(s) => {
            let mut r: Vec<InputEvent> = Vec::new();
            match gpio::decode(ev, s) {
                Some(e) => r.push(InputEvent::GPIO { event: e }),
                None => {},
            }
            proof {
                assert(r@ =~= one_event(
                    match gpio::spec_decode_event(*ev) {
                        Some(e) => Some(InputEvent::GPIO { event: e }),
                        None => None,
                    },
                ));
            }
            r
        },
        InputDeviceState::MultitouchState(s) => {
            let events = multitouch::decode(ev, s, mapping);
            wrap_touch_events(events)
        },
    }
}

} // verus!
