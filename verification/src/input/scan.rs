use vstd::prelude::*;

use super::InputDevice;

verus! {

/// What an event device says it supports, as far as telling the three
/// input devices apart needs.
#[derive(Clone, Copy, Debug, PartialEq, Eq, Structural)]
pub struct DeviceCapabilities {
    /// Supports events of type KEY
    pub key_events: bool,
    /// Supports events of type ABSOLUTE
    pub absolute_events: bool,
    /// Supports events of type RELATIVE
    pub relative_events: bool,
    /// Has the BTN_STYLUS key
    pub btn_stylus: bool,
    /// Has the KEY_POWER key
    pub key_power: bool,
    /// Has the ABS_MT_SLOT axis
    pub abs_mt_slot: bool,
}

pub open spec fn spec_classify(caps: DeviceCapabilities) -> InputDevice {
    if caps.key_events && caps.btn_stylus && caps.absolute_events {
        InputDevice::Wacom
    } else if caps.key_events && caps.key_power {
        InputDevice::GPIO
    } else if caps.relative_events && caps.abs_mt_slot {
        InputDevice::Multitouch
    } else {
        InputDevice::Unknown
    }
}

/// Tells which input device an event device is: the digitizer has the
/// stylus button and absolute axes, the buttons have the power key, the
/// touchscreen has relative events and the multitouch slot axis.
pub fn classify(caps: &DeviceCapabilities) -> (d: InputDevice)
    ensures
        d == spec_classify(*caps),
{
    if caps.key_events {
        if caps.btn_stylus && caps.absolute_events {
            return InputDevice::Wacom;
        }
        if caps.key_power {
            return InputDevice::GPIO;
        }
    }
    if caps.relative_events && caps.abs_mt_slot {
        return InputDevice::Multitouch;
    }
    InputDevice::Unknown
}

/// The last index in `devs` whose device is `kind`.
pub open spec fn spec_last_of(devs: Seq<DeviceCapabilities>, kind: InputDevice) -> Option<usize>
    decreases devs.len(),
{
    if devs.len() == 0 {
        None
    } else if spec_classify(devs.last()) == kind {
        Some((devs.len() - 1) as usize)
    } else {
        spec_last_of(devs.drop_last(), kind)
    }
}

/// Which of the scanned event devices are the digitizer, the touchscreen and
/// the buttons (in this order); where several match, the last one scanned wins.
pub fn find_devices(devs: &Vec<DeviceCapabilities>) -> (r: (Option<usize>, Option<usize>, Option<usize>))
    ensures
        r.0 == spec_last_of(devs@, InputDevice::Wacom),
        r.1 == spec_last_of(devs@, InputDevice::Multitouch),
        r.2 == spec_last_of(devs@, InputDevice::GPIO),
{
    let mut wacom: Option<usize> = None;
    let mut multitouch: Option<usize> = None;
    let mut gpio: Option<usize> = None;
    let n = devs.len();
    for i in 0..n
        invariant
            n == devs@.len(),
            wacom == spec_last_of(devs@.take(i as int), InputDevice::Wacom),
            multitouch == spec_last_of(devs@.take(i as int), InputDevice::Multitouch),
            gpio == spec_last_of(devs@.take(i as int), InputDevice::GPIO),
    {
        proof {
            assert(devs@.take(i + 1).drop_last() =~= devs@.take(i as int));
            assert(devs@.take(i + 1).last() == devs@[i as int]);
        }
        match classify(&devs[i]) {
            InputDevice::Wacom => {
                wacom = Some(i);
            },
            InputDevice::Multitouch => {
                multitouch = Some(i);
            },
            InputDevice::GPIO => {
                gpio = Some(i);
            },
            InputDevice::Unknown => {},
        }
    }
    proof {
        assert(devs@.take(n as int) =~= devs@);
    }
    (wacom, multitouch, gpio)
}

/// A device found by `find_devices` is of the kind it was found for.
pub proof fn lemma_last_of_matches(devs: Seq<DeviceCapabilities>, kind: InputDevice)
    requires
        devs.len() <= usize::MAX,
    ensures
        spec_last_of(devs, kind) matches Some(i) ==> i < devs.len() && spec_classify(devs[i as int])
            == kind,
        spec_last_of(devs, kind) is None ==> forall|i: int|
            0 <= i < devs.len() ==> spec_classify(#[trigger] devs[i]) != kind,
    decreases devs.len(),
{
    if devs.len() > 0 {
        lemma_last_of_matches(devs.drop_last(), kind);
        match spec_last_of(devs.drop_last(), kind) {
            Some(i) => {
                assert(devs.drop_last()[i as int] == devs[i as int]);
            },
            None => {},
        }
        if spec_classify(devs.last()) != kind {
            assert forall|i: int| 0 <= i < devs.len() - 1 implies devs[i] == devs.drop_last()[i] by {}
        }
    }
}

} // verus!
