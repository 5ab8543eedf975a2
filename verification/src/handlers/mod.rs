/// Handler of the physical buttons that reports each change of a button once
pub mod physical_buttons;
/// Handler of the touchscreen that tracks a single touch
pub mod multitouch;
/// Handler of the Wacom digitizer that reports hovering and drawing as they come
pub mod wacom;
/// Handler that shows every event of a device
pub mod ev_debug;
