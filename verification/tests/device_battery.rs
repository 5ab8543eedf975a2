use libremarkable::battery;
use libremarkable::device::{Device, ErrorKind, InputDevicePlacement, Model};
use libremarkable::dimensions::{DISPLAYHEIGHT, DISPLAYWIDTH};
use libremarkable::input::rotate::InputDeviceRotation;
use libremarkable::text::{is_whitespace, parse_i32, trim};

fn ok(s: &str) -> Result<String, String> {
    Ok(s.to_string())
}

#[test]
fn machine_names() {
    assert!(matches!(Model::from_machine_name("reMarkable 1.0\n"), Ok(Model::Gen1)));
    assert!(matches!(Model::from_machine_name("reMarkable Prototype 1"), Ok(Model::Gen1)));
    assert!(matches!(Model::from_machine_name("  reMarkable 2.0 \n"), Ok(Model::Gen2)));
    match Model::from_machine_name("reMarkable 3.0\n") {
        Err(ErrorKind::UnknownVersion(v)) => {
            assert_eq!(v, "reMarkable 3.0");
            assert_eq!(ErrorKind::unknown_version_message(&v), "Unknown reMarkable version 'reMarkable 3.0'");
        },
        other => panic!("unexpected {:?}", other),
    }
    assert!(matches!(Model::from_machine_name("reMarkable 1.0x"), Err(ErrorKind::UnknownVersion(_))));
}

#[test]
fn current_model_passes_io_errors_on() {
    let err = std::io::Error::new(std::io::ErrorKind::NotFound, "no machine file");
    match Model::current_model(Err(err)) {
        Err(ErrorKind::IOError(e)) => {
            // the error given is the error returned
            assert_eq!(e.kind(), std::io::ErrorKind::NotFound);
            assert_eq!(e.to_string(), "no machine file");
        },
        other => panic!("unexpected {:?}", other),
    }
    assert!(matches!(Model::current_model(Ok("reMarkable 2.0\n".to_string())), Ok(Model::Gen2)));
}

#[test]
fn model_names_and_placements() {
    assert_eq!(Model::Gen1.name(), "reMarkable 1");
    assert_eq!(Model::Gen2.name(), "reMarkable 2");
    let rm1 = Device::new(Model::Gen1);
    let rm2 = Device::new(Model::Gen2);
    assert_eq!(rm1.get_internal_battery_name(), "bq27441-0");
    assert_eq!(rm2.get_internal_battery_name(), "max77818_battery");
    assert_eq!(
        rm1.get_multitouch_placement(),
        InputDevicePlacement { rotation: InputDeviceRotation::Rot180, invert_x: false, invert_y: false }
    );
    assert_eq!(
        rm2.get_multitouch_placement(),
        InputDevicePlacement { rotation: InputDeviceRotation::Rot180, invert_x: true, invert_y: false }
    );
    let wacom = InputDevicePlacement { rotation: InputDeviceRotation::Rot270, invert_x: false, invert_y: false };
    assert_eq!(rm1.get_wacom_placement(), wacom);
    assert_eq!(rm2.get_wacom_placement(), wacom);
    assert_eq!((DISPLAYWIDTH, DISPLAYHEIGHT), (1404, 1872));
}

#[test]
fn battery_numbers() {
    assert_eq!(battery::percentage(ok("97\n")), Ok(97));
    assert_eq!(battery::current(ok("-132000\n")), Ok(-132000));
    assert_eq!(battery::voltage(ok("4164000\n")), Ok(4164000));
    assert_eq!(battery::charge(ok("1528000\n")), Ok(1528000));
    assert_eq!(battery::charge_full(ok("1635000\n")), Ok(1635000));
    assert_eq!(battery::charge_full_design(ok("1340000\n")), Ok(1340000));
    assert_eq!(battery::temperature(ok("201\n")), Ok(201));
    assert_eq!(battery::percentage(ok("+5")), Ok(5));
}

#[test]
fn battery_text() {
    assert_eq!(battery::human_readable_capacity_level(ok("Normal\n")), Ok("Normal".to_string()));
    assert_eq!(battery::human_readable_charging_status(ok(" Discharging\n")), Ok("Discharging".to_string()));
    assert_eq!(battery::read_attribute(ok("  \n")), Ok(String::new()));
}

#[test]
fn battery_errors() {
    assert_eq!(
        battery::percentage(Err("No such file or directory (os error 2)".to_string())),
        Err("Unable to open file: No such file or directory (os error 2)".to_string())
    );
    assert_eq!(battery::percentage(ok("")), Err("Unable to read file".to_string()));
    assert_eq!(
        battery::percentage(ok("full\n")),
        Err("Unable to parse the contents of 'capacity' during a battery query".to_string())
    );
    assert_eq!(
        battery::charge_full(ok("2147483648")),
        Err("Unable to parse the contents of 'charge_full' during a battery query".to_string())
    );
    assert_eq!(
        battery::temperature(ok("hot")),
        Err("Unable to parse the contents of 'current_now' during a battery query".to_string())
    );
    assert_eq!(
        battery::voltage(ok("-")),
        Err("Unable to parse the contents of 'voltage_now' during a battery query".to_string())
    );
    assert_eq!(
        battery::charge_full_design(ok("1 2")),
        Err("Unable to parse the contents of 'charge_full_design' during a battery query".to_string())
    );
    assert_eq!(
        battery::charge(ok("")),
        Err("Unable to read file".to_string())
    );
    assert_eq!(
        battery::human_readable_capacity_level(Err("denied".to_string())),
        Err("Unable to open file: denied".to_string())
    );
}

#[test]
fn trimming_and_parsing() {
    assert_eq!(trim("  a b \t\n"), "a b");
    assert_eq!(trim(""), "");
    assert_eq!(trim(" \u{3000}x\u{a0}"), "x");
    assert!(is_whitespace('\u{2028}'));
    assert!(!is_whitespace('x'));
    assert_eq!(parse_i32("2147483647"), Some(i32::MAX));
    assert_eq!(parse_i32("-2147483648"), Some(i32::MIN));
    assert_eq!(parse_i32("-2147483649"), None);
    assert_eq!(parse_i32("007"), Some(7));
    assert_eq!(parse_i32("-0"), Some(0));
    assert_eq!(parse_i32(""), None);
    assert_eq!(parse_i32("+"), None);
    assert_eq!(parse_i32("1_000"), None);
    assert_eq!(parse_i32(" 1"), None);
    // every input agrees with std's parser
    for s in ["12", "-7", "+3", "x", "", "99999999999", "-", "0"] {
        assert_eq!(parse_i32(s), s.parse::<i32>().ok());
    }
}
