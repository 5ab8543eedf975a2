use libremarkable::input;
use libremarkable::device::InputDevicePlacement;
use libremarkable::geometry::{Point2, Vector2};
use libremarkable::input::ecodes;
use libremarkable::input::gpio::{self, GPIOState};
use libremarkable::input::multitouch::{self, MultitouchState};
use libremarkable::input::rotate::{CoordinatePart, InputDeviceRotation};
use libremarkable::input::scan::{classify, find_devices, DeviceCapabilities};
use libremarkable::input::wacom::{self, WacomEvent, WacomState};
use libremarkable::input::{
    AxisMapping, Finger, GPIOEvent, InputDevice, InputDeviceState, InputEvent, MultitouchEvent,
    PhysicalButton, RawInputEvent, WacomPen,
};

fn ev(event_type: u16, code: u16, value: i32) -> RawInputEvent {
    RawInputEvent { event_type, code, value }
}

fn syn() -> RawInputEvent {
    ev(ecodes::EV_SYN, ecodes::SYN_REPORT, 0)
}

#[test]
fn gpio_press_and_release() {
    let mut state = GPIOState::default();
    assert!(!state.is_pressed(PhysicalButton::LEFT));
    let r = gpio::decode(&ev(ecodes::EV_KEY, ecodes::KEY_LEFT, 1), &mut state);
    assert_eq!(r, Some(GPIOEvent::Press { button: PhysicalButton::LEFT }));
    assert!(state.is_pressed(PhysicalButton::LEFT));
    assert!(!state.is_pressed(PhysicalButton::RIGHT));
    assert_eq!(gpio::decode(&syn(), &mut state), None);
    assert!(state.is_pressed(PhysicalButton::LEFT));
    let r = gpio::decode(&ev(ecodes::EV_KEY, ecodes::KEY_LEFT, 0), &mut state);
    assert_eq!(r, Some(GPIOEvent::Unpress { button: PhysicalButton::LEFT }));
    assert!(!state.is_pressed(PhysicalButton::LEFT));
}

#[test]
fn gpio_all_buttons() {
    let mut state = GPIOState::default();
    let keys = [
        (ecodes::KEY_HOME, PhysicalButton::MIDDLE),
        (ecodes::KEY_LEFT, PhysicalButton::LEFT),
        (ecodes::KEY_RIGHT, PhysicalButton::RIGHT),
        (ecodes::KEY_POWER, PhysicalButton::POWER),
        (ecodes::KEY_WAKEUP, PhysicalButton::WAKEUP),
    ];
    for (code, button) in keys {
        assert_eq!(gpio::decode(&ev(ecodes::EV_KEY, code, 1), &mut state), Some(GPIOEvent::Press { button }));
        assert!(state.is_pressed(button));
    }
    // an unknown key changes nothing
    assert_eq!(gpio::decode(&ev(ecodes::EV_KEY, 0x1ff, 1), &mut state), None);
    // events of another type are ignored
    assert_eq!(gpio::decode(&ev(ecodes::EV_ABS, ecodes::KEY_HOME, 0), &mut state), None);
    assert!(state.is_pressed(PhysicalButton::MIDDLE));
}

fn wacom_mapping() -> AxisMapping {
    AxisMapping {
        placement: InputDevicePlacement { rotation: InputDeviceRotation::Rot270, invert_x: false, invert_y: false },
        orig_size: Vector2 { x: 20967, y: 15725 },
        width: 15725,
        height: 20967,
    }
}

#[test]
fn wacom_hover_then_draw() {
    let mapping = wacom_mapping();
    let mut state = WacomState::default();
    assert_eq!(wacom::decode(&ev(ecodes::EV_ABS, ecodes::ABS_X, 1000), &mut state, &mapping), None);
    assert_eq!(state.last_y, 19967);
    assert_eq!(wacom::decode(&ev(ecodes::EV_ABS, ecodes::ABS_Y, 500), &mut state, &mapping), None);
    assert_eq!(state.last_x, 500);
    assert_eq!(wacom::decode(&ev(ecodes::EV_ABS, ecodes::ABS_DISTANCE, 10), &mut state, &mapping), None);
    assert_eq!(wacom::decode(&ev(ecodes::EV_ABS, ecodes::ABS_TILT_X, 30), &mut state, &mapping), None);
    assert_eq!(wacom::decode(&ev(ecodes::EV_ABS, ecodes::ABS_TILT_Y, 40), &mut state, &mapping), None);
    assert_eq!(
        wacom::decode(&syn(), &mut state, &mapping),
        Some(WacomEvent::Hover {
            position: Point2 { x: 500, y: 19967 },
            distance: 10,
            tilt: Vector2 { x: 30, y: 40 },
        })
    );
    assert_eq!(
        wacom::decode(&ev(ecodes::EV_KEY, ecodes::BTN_TOUCH, 1), &mut state, &mapping),
        Some(WacomEvent::InstrumentChange { pen: WacomPen::Touch, state: true })
    );
    assert_eq!(wacom::decode(&ev(ecodes::EV_ABS, ecodes::ABS_PRESSURE, 2000), &mut state, &mapping), None);
    assert_eq!(
        wacom::decode(&syn(), &mut state, &mapping),
        Some(WacomEvent::Draw {
            position: Point2 { x: 500, y: 19967 },
            pressure: 2000,
            tilt: Vector2 { x: 30, y: 40 },
        })
    );
    // while the tip presses, a distance report adds to the pressure
    assert_eq!(wacom::decode(&ev(ecodes::EV_ABS, ecodes::ABS_DISTANCE, 5), &mut state, &mapping), None);
    assert_eq!(state.last_pressure, 2005);
    assert!(state.last_touch_state);
    assert_eq!(state.last_dist, 10);
}

#[test]
fn wacom_tool_changes() {
    let mapping = wacom_mapping();
    let mut state = WacomState::default();
    assert_eq!(
        wacom::decode(&ev(ecodes::EV_KEY, ecodes::BTN_TOOL_RUBBER, 1), &mut state, &mapping),
        Some(WacomEvent::InstrumentChange { pen: WacomPen::ToolRubber, state: true })
    );
    assert_eq!(
        wacom::decode(&ev(ecodes::EV_KEY, ecodes::BTN_TOOL_PEN, 0), &mut state, &mapping),
        Some(WacomEvent::InstrumentChange { pen: WacomPen::ToolPen, state: false })
    );
    // a tool key does not make the pen touch
    assert!(!state.last_touch_state);
    // an unknown key is not reported
    assert_eq!(wacom::decode(&ev(ecodes::EV_KEY, 0x100, 1), &mut state, &mapping), None);
    assert_eq!(state, WacomState::default());
}

#[test]
fn wacom_pen_codes() {
    for pen in [WacomPen::ToolPen, WacomPen::ToolRubber, WacomPen::Touch, WacomPen::Stylus, WacomPen::Stylus2] {
        assert_eq!(WacomPen::from_code(pen.code()), Some(pen));
    }
    assert_eq!(WacomPen::Stylus.code(), 0x14b);
    assert_eq!(WacomPen::from_code(0x142), None);
}

fn mt_mapping() -> AxisMapping {
    AxisMapping {
        placement: InputDevicePlacement { rotation: InputDeviceRotation::Rot180, invert_x: false, invert_y: false },
        orig_size: Vector2 { x: 767, y: 1023 },
        width: 767,
        height: 1023,
    }
}

#[test]
fn multitouch_press_move_release() {
    let mapping = mt_mapping();
    let mut state = MultitouchState::default();
    assert!(multitouch::decode(&ev(ecodes::EV_ABS, ecodes::ABS_MT_SLOT, 0), &mut state, &mapping).is_empty());
    assert!(multitouch::decode(&ev(ecodes::EV_ABS, ecodes::ABS_MT_TRACKING_ID, 5), &mut state, &mapping).is_empty());
    assert!(multitouch::decode(&ev(ecodes::EV_ABS, ecodes::ABS_MT_POSITION_X, 100), &mut state, &mapping).is_empty());
    assert!(multitouch::decode(&ev(ecodes::EV_ABS, ecodes::ABS_MT_POSITION_Y, 200), &mut state, &mapping).is_empty());
    assert!(multitouch::decode(&ev(ecodes::EV_ABS, ecodes::ABS_MT_PRESSURE, 50), &mut state, &mapping).is_empty());
    let pressed = Finger {
        tracking_id: 5,
        pos: Point2 { x: 667, y: 823 },
        pos_updated: true,
        last_pressed: true,
        pressed: true,
    };
    assert_eq!(multitouch::decode(&syn(), &mut state, &mapping), vec![MultitouchEvent::Press { finger: pressed }]);
    assert_eq!(state.fingers.get(&0).copied(), Some(Finger { pos_updated: false, ..pressed }));

    assert!(multitouch::decode(&ev(ecodes::EV_ABS, ecodes::ABS_MT_POSITION_X, 110), &mut state, &mapping).is_empty());
    let moved = Finger { pos: Point2 { x: 657, y: 823 }, ..pressed };
    assert_eq!(multitouch::decode(&syn(), &mut state, &mapping), vec![MultitouchEvent::Move { finger: moved }]);

    assert!(multitouch::decode(&ev(ecodes::EV_ABS, ecodes::ABS_MT_TRACKING_ID, -1), &mut state, &mapping).is_empty());
    let released = Finger { pos_updated: false, last_pressed: false, pressed: false, ..moved };
    assert_eq!(multitouch::decode(&syn(), &mut state, &mapping), vec![MultitouchEvent::Release { finger: released }]);
    // a report with nothing new is quiet
    assert!(multitouch::decode(&syn(), &mut state, &mapping).is_empty());
    assert_eq!(MultitouchEvent::Release { finger: released }.finger(), Some(&released));
    assert_eq!(MultitouchEvent::Unknown.finger(), None);
}

#[test]
fn multitouch_two_fingers() {
    let mapping = mt_mapping();
    let mut state = MultitouchState::default();
    for slot in [0, 1] {
        multitouch::decode(&ev(ecodes::EV_ABS, ecodes::ABS_MT_SLOT, slot), &mut state, &mapping);
        multitouch::decode(&ev(ecodes::EV_ABS, ecodes::ABS_MT_TRACKING_ID, 10 + slot), &mut state, &mapping);
        multitouch::decode(&ev(ecodes::EV_ABS, ecodes::ABS_MT_PRESSURE, 1), &mut state, &mapping);
    }
    assert_eq!(state.current_slot, 1);
    let events = multitouch::decode(&syn(), &mut state, &mapping);
    assert_eq!(events.len(), 2);
    let mut ids: Vec<i32> = events
        .iter()
        .map(|e| match e {
            MultitouchEvent::Press { finger } => finger.tracking_id,
            _ => panic!("expected a press"),
        })
        .collect();
    ids.sort();
    assert_eq!(ids, vec![10, 11]);
    // a finger that saw no position report keeps the default position
    assert_eq!(state.fingers.get(&1).unwrap().pos, Point2 { x: u16::MAX, y: u16::MAX });
}

#[test]
fn axis_mapping_inverts_after_rotation() {
    let mapping = AxisMapping {
        placement: InputDevicePlacement { rotation: InputDeviceRotation::Rot180, invert_x: true, invert_y: false },
        orig_size: Vector2 { x: 767, y: 1023 },
        width: 767,
        height: 1023,
    };
    // rotated to 667, then mirrored to 100
    assert_eq!(mapping.map(CoordinatePart::X(100)), CoordinatePart::X(100));
    assert_eq!(mapping.map(CoordinatePart::Y(200)), CoordinatePart::Y(823));
}

#[test]
fn fresh_device_states() {
    assert!(matches!(InputDeviceState::new(InputDevice::GPIO), InputDeviceState::GPIOState(_)));
    match InputDeviceState::new(InputDevice::Wacom) {
        InputDeviceState::WacomState(s) => assert_eq!(s, WacomState::default()),
        _ => panic!("expected the digitizer's state"),
    }
    match InputDeviceState::new(InputDevice::Multitouch) {
        InputDeviceState::MultitouchState(s) => {
            assert!(s.fingers.is_empty());
            assert_eq!(s.current_slot, 0);
        },
        _ => panic!("expected the touchscreen's state"),
    }
    assert_eq!(Finger::default().tracking_id, -1);
}

fn caps(key: bool, abs: bool, rel: bool, stylus: bool, power: bool, slot: bool) -> DeviceCapabilities {
    DeviceCapabilities {
        key_events: key,
        absolute_events: abs,
        relative_events: rel,
        btn_stylus: stylus,
        key_power: power,
        abs_mt_slot: slot,
    }
}

#[test]
fn classify_devices() {
    assert_eq!(classify(&caps(true, true, false, true, false, false)), InputDevice::Wacom);
    assert_eq!(classify(&caps(true, false, false, false, true, false)), InputDevice::GPIO);
    assert_eq!(classify(&caps(false, true, true, false, false, true)), InputDevice::Multitouch);
    assert_eq!(classify(&caps(true, false, false, true, false, false)), InputDevice::Unknown);
    assert_eq!(classify(&caps(false, false, false, false, false, false)), InputDevice::Unknown);
    // the stylus button wins over the power key
    assert_eq!(classify(&caps(true, true, false, true, true, false)), InputDevice::Wacom);
}

#[test]
fn find_devices_takes_the_last_match() {
    let devs = vec![
        caps(true, false, false, false, true, false),
        caps(true, true, false, true, false, false),
        caps(false, false, false, false, false, false),
        caps(true, false, false, false, true, false),
    ];
    assert_eq!(find_devices(&devs), (Some(1), None, Some(3)));
    assert_eq!(find_devices(&Vec::new()), (None, None, None));
}

#[test]
fn decode_dispatches_on_the_device() {
    let mut buttons = InputDeviceState::new(InputDevice::GPIO);
    let r = input::decode(&ev(ecodes::EV_KEY, ecodes::KEY_POWER, 1), &mut buttons, &mt_mapping());
    assert_eq!(r, vec![InputEvent::GPIO { event: GPIOEvent::Press { button: PhysicalButton::POWER } }]);
    assert!(input::decode(&syn(), &mut buttons, &mt_mapping()).is_empty());

    let mut pen = InputDeviceState::new(InputDevice::Wacom);
    let r = input::decode(&ev(ecodes::EV_KEY, ecodes::BTN_TOUCH, 1), &mut pen, &wacom_mapping());
    assert_eq!(
        r,
        vec![InputEvent::WacomEvent { event: WacomEvent::InstrumentChange { pen: WacomPen::Touch, state: true } }]
    );
    let r = input::decode(&syn(), &mut pen, &wacom_mapping());
    assert_eq!(
        r,
        vec![InputEvent::WacomEvent {
            event: WacomEvent::Draw { position: Point2 { x: 0, y: 0 }, pressure: 0, tilt: Vector2 { x: 0, y: 0 } }
        }]
    );

    let mut touch = InputDeviceState::new(InputDevice::Multitouch);
    input::decode(&ev(ecodes::EV_ABS, ecodes::ABS_MT_TRACKING_ID, 7), &mut touch, &mt_mapping());
    input::decode(&ev(ecodes::EV_ABS, ecodes::ABS_MT_PRESSURE, 3), &mut touch, &mt_mapping());
    let r = input::decode(&syn(), &mut touch, &mt_mapping());
    assert_eq!(r.len(), 1);
    assert!(matches!(r[0], InputEvent::MultitouchEvent { event: MultitouchEvent::Press { finger } } if finger.tracking_id == 7));
    assert_eq!(InputEvent::default(), InputEvent::Unknown {});
}

#[test]
fn mapping_limits() {
    let mapping = mt_mapping();
    assert!(mapping.can_map(CoordinatePart::X(767)));
    assert!(!mapping.can_map(CoordinatePart::X(768)));
    assert!(mapping.can_map(CoordinatePart::Y(1023)));
    assert!(!mapping.can_map(CoordinatePart::Y(1024)));
    let touch = InputDeviceState::new(InputDevice::Multitouch);
    assert!(!input::can_decode(&touch, &ev(ecodes::EV_ABS, ecodes::ABS_MT_POSITION_X, 2000), &mapping));
    assert!(input::can_decode(&touch, &ev(ecodes::EV_ABS, ecodes::ABS_MT_PRESSURE, 2000), &mapping));
    let buttons = InputDeviceState::new(InputDevice::GPIO);
    assert!(input::can_decode(&buttons, &ev(ecodes::EV_ABS, ecodes::ABS_MT_POSITION_X, 2000), &mapping));
    let pen = InputDeviceState::new(InputDevice::Wacom);
    assert!(input::can_decode(&pen, &ev(ecodes::EV_ABS, ecodes::ABS_X, 20967), &wacom_mapping()));
    assert!(!input::can_decode(&pen, &ev(ecodes::EV_ABS, ecodes::ABS_X, 20968), &wacom_mapping()));
    // an inversion after the rotation needs the coordinate within the rotated size
    let mirrored = AxisMapping {
        placement: InputDevicePlacement { rotation: InputDeviceRotation::Rot0, invert_x: true, invert_y: false },
        orig_size: Vector2 { x: 100, y: 100 },
        width: 50,
        height: 100,
    };
    assert!(mirrored.can_map(CoordinatePart::X(50)));
    assert!(!mirrored.can_map(CoordinatePart::X(51)));
    assert!(mirrored.can_map(CoordinatePart::Y(500)));
}
