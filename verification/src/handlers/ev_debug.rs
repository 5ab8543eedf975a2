use vstd::prelude::*;
use vstd::string::*;

verus! {

/// A handler that shows every event of the device it is attached to.
pub struct EvDeviceDebugHandler {
    pub name: String,
}

impl EvDeviceDebugHandler {
    /// Called once the device is open; takes note of its name.
    pub fn on_init(&mut self, name: String)
        ensures
            final(self).name@ == name@,
    {
        self.name = name;
    }
}

} // verus!
