use libremarkable::handlers::ev_debug::EvDeviceDebugHandler;
use libremarkable::handlers::multitouch::{MultitouchHandler, Touch};
use libremarkable::handlers::physical_buttons::{PhysicalButton, PhysicalButtonHandler};
use libremarkable::handlers::wacom::{WacomEvent, WacomHandler};
use libremarkable::input::{ecodes, RawInputEvent, WacomPen};
use libremarkable::ui_extensions::element::UIConstraintRefresh;
use libremarkable::unifiedinput::{self, GPIOEvent, InputEvent, MultitouchEvent, UnifiedInputHandler};

fn ev(event_type: u16, code: u16, value: i32) -> RawInputEvent {
    RawInputEvent { event_type, code, value }
}

#[test]
fn physical_buttons_are_debounced() {
    let mut h = PhysicalButtonHandler::get_instance();
    assert_eq!(h.name, "GPIO");
    h.on_init("gpio-keys".to_string());
    assert_eq!(h.name, "gpio-keys");
    assert_eq!(h.on_event(&ev(ecodes::EV_KEY, ecodes::KEY_HOME, 1)), Some((PhysicalButton::MIDDLE, 1)));
    assert_eq!(h.states, [false, true, false]);
    // a repeated press is swallowed
    assert_eq!(h.on_event(&ev(ecodes::EV_KEY, ecodes::KEY_HOME, 1)), None);
    assert_eq!(h.on_event(&ev(ecodes::EV_KEY, ecodes::KEY_HOME, 0)), Some((PhysicalButton::MIDDLE, 0)));
    assert_eq!(h.on_event(&ev(ecodes::EV_KEY, ecodes::KEY_RIGHT, 2)), Some((PhysicalButton::RIGHT, 2)));
    assert_eq!(h.on_event(&ev(ecodes::EV_KEY, ecodes::KEY_POWER, 1)), None);
    assert_eq!(h.on_event(&ev(ecodes::EV_SYN, 0, 0)), None);
    assert_eq!(h.states, [false, false, true]);
}

#[test]
fn simple_multitouch_handler() {
    let mut h = MultitouchHandler::get_instance();
    assert_eq!(h.name, "MT");
    assert_eq!(h.on_event(&ev(ecodes::EV_ABS, ecodes::ABS_MT_TRACKING_ID, 42)), None);
    assert!(h.currently_touching);
    assert_eq!(h.on_event(&ev(ecodes::EV_ABS, ecodes::ABS_MT_SLOT, 1)), None);
    assert_eq!(h.on_event(&ev(ecodes::EV_ABS, ecodes::ABS_MT_POSITION_X, 67)), None);
    assert_eq!(
        h.on_event(&ev(ecodes::EV_ABS, ecodes::ABS_MT_POSITION_Y, 23)),
        Some(Touch { touch_id: 42, finger_id: 1, y: 1000, x: 700 })
    );
    assert_eq!(h.on_event(&ev(ecodes::EV_ABS, ecodes::ABS_MT_TOUCH_MINOR, 9)), None);
    assert_eq!(h.last_touch_size, 9);
    assert_eq!(h.on_event(&ev(ecodes::EV_ABS, ecodes::ABS_MT_TRACKING_ID, -1)), None);
    assert!(!h.currently_touching);
    assert_eq!(h.last_touch_id, 42);
    assert_eq!(h.on_event(&ev(ecodes::EV_SYN, 0, 0)), None);
}

#[test]
fn simple_wacom_handler() {
    let mut h = WacomHandler::get_instance(false);
    h.on_init("Wacom I2C Digitizer".to_string());
    assert_eq!(h.on_event(&ev(ecodes::EV_ABS, ecodes::ABS_X, 967)), None);
    assert_eq!(h.on_event(&ev(ecodes::EV_ABS, ecodes::ABS_Y, 300)), None);
    assert_eq!(h.on_event(&ev(ecodes::EV_ABS, ecodes::ABS_TILT_X, 7)), None);
    assert_eq!(
        h.on_event(&ev(ecodes::EV_ABS, ecodes::ABS_DISTANCE, 20)),
        Some(WacomEvent::Hover { y: 20000, x: 300, distance: 20, tilt_x: 7, tilt_y: 0 })
    );
    assert_eq!(
        h.on_event(&ev(ecodes::EV_ABS, ecodes::ABS_PRESSURE, 1500)),
        Some(WacomEvent::Draw { y: 20000, x: 300, pressure: 1500, tilt_x: 7, tilt_y: 0 })
    );
    assert_eq!(
        h.on_event(&ev(ecodes::EV_KEY, ecodes::BTN_STYLUS2, 1)),
        Some(WacomEvent::InstrumentChange { pen: WacomPen::Stylus2, state: true })
    );
    assert_eq!(h.on_event(&ev(ecodes::EV_KEY, 0x120, 1)), None);
}

#[test]
fn debug_handler_takes_the_name() {
    let mut h = EvDeviceDebugHandler { name: String::new() };
    h.on_init("event1".to_string());
    assert_eq!(h.name, "event1");
}

#[test]
fn unified_handler_dispatches_by_name() {
    let mut h = UnifiedInputHandler::new();
    // the digitizer: x and y swapped, y mirrored
    assert_eq!(h.on_event("Wacom I2C Digitizer", &ev(ecodes::EV_ABS, ecodes::ABS_X, 967)), None);
    assert_eq!(h.on_event("Wacom I2C Digitizer", &ev(ecodes::EV_ABS, ecodes::ABS_Y, 300)), None);
    assert_eq!(h.on_event("Wacom I2C Digitizer", &ev(ecodes::EV_ABS, ecodes::ABS_X, 1967)), None);
    assert_eq!(
        h.on_event("Wacom I2C Digitizer", &ev(ecodes::EV_ABS, ecodes::ABS_PRESSURE, 100)),
        Some(InputEvent::WacomEvent {
            event: unifiedinput::WacomEvent::Draw {
                y: 19000,
                x: 300,
                pressure: 100,
                tilt_x: 0,
                tilt_y: 0,
                prevy: 20000,
                prevx: 0,
            }
        })
    );
    // the touchscreen
    assert_eq!(h.on_event("cyttsp5_mt", &ev(ecodes::EV_ABS, ecodes::ABS_MT_TRACKING_ID, 3)), None);
    assert_eq!(h.on_event("cyttsp5_mt", &ev(ecodes::EV_ABS, ecodes::ABS_MT_POSITION_X, 7)), None);
    assert_eq!(
        h.on_event("cyttsp5_mt", &ev(ecodes::EV_ABS, ecodes::ABS_MT_POSITION_Y, 3)),
        Some(InputEvent::MultitouchEvent {
            event: MultitouchEvent::Touch { gesture_seq: 3, finger_id: 0, y: 1020, x: 760 }
        })
    );
    // the buttons
    assert_eq!(
        h.on_event("gpio-keys", &ev(ecodes::EV_KEY, ecodes::KEY_LEFT, 1)),
        Some(InputEvent::GPIO { event: GPIOEvent::Press { button: unifiedinput::PhysicalButton::LEFT } })
    );
    assert_eq!(h.on_event("gpio-keys", &ev(ecodes::EV_KEY, ecodes::KEY_LEFT, 1)), None);
    assert_eq!(
        h.on_event("gpio-keys", &ev(ecodes::EV_KEY, ecodes::KEY_LEFT, 0)),
        Some(InputEvent::GPIO { event: GPIOEvent::Unpress { button: unifiedinput::PhysicalButton::LEFT } })
    );
    // any other device is ignored
    let wacom_before = h.wacom;
    assert_eq!(h.on_event("keyboard", &ev(ecodes::EV_ABS, ecodes::ABS_PRESSURE, 100)), None);
    assert_eq!(h.wacom, wacom_before);
    assert_eq!(InputEvent::default(), InputEvent::Unknown {});
}

#[test]
fn refresh_constraint_default() {
    assert_eq!(UIConstraintRefresh::default(), UIConstraintRefresh::Refresh);
}
