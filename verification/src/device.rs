use vstd::prelude::*;
use vstd::string::*;

use crate::input::rotate::InputDeviceRotation;
use crate::text::{spec_trim, trim};

verus! {

#[derive(Clone, Copy, Debug, PartialEq, Eq, Structural)]
pub enum Model {
    Gen1,
    Gen2,
}

/// What the kernel names the machine in /sys/devices/soc0/machine, trimmed,
/// decides the model.
pub open spec fn spec_model_for_machine_name(name: Seq<char>) -> Option<Model> {
    if name == "reMarkable 1.0"@ || name == "reMarkable Prototype 1"@ {
        Some(Model::Gen1)
    } else if name == "reMarkable 2.0"@ {
        Some(Model::Gen2)
    } else {
        None
    }
}

/// Differentiate between the reasons why the determination of the current device model can fail.
#[derive(Debug)]
pub enum ErrorKind {
    /// An IO error occured when reading /sys/devices/soc0/machine
    IOError(std::io::Error),
    /// The version string in /sys/devices/soc0/machine does not match any of the known versions.
    UnknownVersion(String),
}

#[verifier::external_type_specification]
#[verifier::external_body]
pub struct ExIoError(std::io::Error);

impl Model {
    /// The name under which the model is sold, as shown to users.
    pub fn name(&self) -> (s: &'static str)
        ensures
            *self == Model::Gen1 ==> s@ == "reMarkable 1"@,
            *self == Model::Gen2 ==> s@ == "reMarkable 2"@,
    {
        match self {
            Model::Gen1 => "reMarkable 1",
            Model::Gen2 => "reMarkable 2",
        }
    }

    /// Determines the model from the contents of /sys/devices/soc0/machine,
    /// or the error that reading it gave.
    pub fn current_model(content: Result<String, std::io::Error>) -> (r: Result<Model, ErrorKind>)
        ensures
            content matches Err(e) ==> r == Err::<Model, ErrorKind>(ErrorKind::IOError(e)),
            content matches Ok(c) ==> match spec_model_for_machine_name(spec_trim(c@)) {
                Some(m) => r == Ok::<Model, ErrorKind>(m),
                None => r matches Err(ErrorKind::UnknownVersion(v)) && v@ == spec_trim(c@),
            },
    {
        match content {
            Err(e) => Err(ErrorKind::IOError(e)),
            Ok(c) => Model::from_machine_name(c.as_str()),
        }
    }

    /// Determines the model from the machine name the kernel reports.
    pub fn from_machine_name(content: &str) -> (r: Result<Model, ErrorKind>)
        ensures
            match spec_model_for_machine_name(spec_trim(content@)) {
                Some(m) => r == Ok::<Model, ErrorKind>(m),
                None => r matches Err(ErrorKind::UnknownVersion(v)) && v@ == spec_trim(content@),
            },
    {
        let machine_name = trim(content);
        // "reMarkable Prototype 1" was also seen for reMarkable 1 owners.
        let gen1 = String::from_str("reMarkable 1.0");
        let gen1_prototype = String::from_str("reMarkable Prototype 1");
        let gen2 = String::from_str("reMarkable 2.0");
        proof {
            reveal_strlit("reMarkable 1.0");
            reveal_strlit("reMarkable Prototype 1");
            reveal_strlit("reMarkable 2.0");
        }
        if machine_name == gen1 || machine_name == gen1_prototype {
            Ok(Model::Gen1)
        } else if machine_name == gen2 {
            Ok(Model::Gen2)
        } else {
            Err(ErrorKind::UnknownVersion(machine_name))
        }
    }
}

/// Mainly information regarding both models
#[derive(Clone, Copy, Debug, PartialEq, Eq, Structural)]
pub struct Device {
    pub model: Model,
}

/// The here specified rotation and inversions should get the device into portrait
/// rotation where the origin (0, 0) is at the top left.
/// Scaling is not specified here, but Inputs will scale the axis to match the
/// size of the framebuffer.
#[derive(Clone, Copy, Debug, PartialEq, Eq, Structural)]
pub struct InputDevicePlacement {
    /// What rotation is needed to get it into portrait rotation
    pub rotation: InputDeviceRotation,
    /// Whether to invert the x axis AFTER a rotation was applied
    pub invert_x: bool,
    /// Whether to invert the y axis AFTER a rotation was applied
    pub invert_y: bool,
}

impl Device {
    pub open spec fn spec_multitouch_placement(self) -> InputDevicePlacement {
        InputDevicePlacement {
            rotation: InputDeviceRotation::Rot180,
            invert_x: self.model == Model::Gen2,
            invert_y: false,
        }
    }

    pub open spec fn spec_wacom_placement(self) -> InputDevicePlacement {
        InputDevicePlacement { rotation: InputDeviceRotation::Rot270, invert_x: false, invert_y: false }
    }

    /// The device of the given model.
    pub fn new(model: Model) -> (d: Device)
        ensures
            d.model == model,
    {
        Device { model }
    }

    /// The touchscreen is turned by 180 degrees on both models; on the
    /// second one its x axis is mirrored as well.
    pub fn get_multitouch_placement(&self) -> (p: InputDevicePlacement)
        ensures
            p == self.spec_multitouch_placement(),
    {
        match self.model {
            Model::Gen1 => InputDevicePlacement {
                rotation: InputDeviceRotation::Rot180,
                invert_x: false,
                invert_y: false,
            },
            Model::Gen2 => InputDevicePlacement {
                rotation: InputDeviceRotation::Rot180,
                invert_x: true,
                invert_y: false,
            },
        }
    }

    /// The Wacom digitizer on Gen1 and Gen2 is placed the same.
    pub fn get_wacom_placement(&self) -> (p: InputDevicePlacement)
        ensures
            p == self.spec_wacom_placement(),
    {
        InputDevicePlacement { rotation: InputDeviceRotation::Rot270, invert_x: false, invert_y: false }
    }

    /// Name of the battery as found in /sys/class/power_supply
    pub fn get_internal_battery_name(&self) -> (s: &'static str)
        ensures
            self.model == Model::Gen1 ==> s@ == "bq27441-0"@,
            self.model == Model::Gen2 ==> s@ == "max77818_battery"@,
    {
        match self.model {
            Model::Gen1 => "bq27441-0",
            Model::Gen2 => "max77818_battery",
        }
    }
}

impl ErrorKind {
    /// The message that describes an unknown version; an IO error is
    /// described by the error itself.
    pub fn unknown_version_message(version: &String) -> (s: String)
        ensures
            s@ == "Unknown reMarkable version '"@ + version@ + "'"@,
    {
        let s = String::from_str("Unknown reMarkable version '");
        let s = s.concat(version.as_str());
        s.concat("'")
    }
}

} // verus!
