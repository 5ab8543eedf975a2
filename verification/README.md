# libremarkable

A framework for programs on the reMarkable paper tablet, with its logic
verified by Verus.

- `src/` is the verified library:
  - `framebuffer/`: the EPD controller's request numbers and modes, update
    rectangles and their merging, screen info, refresh requests (clipping to
    the screen, full and partial refreshes), pixel access, dumping and
    restoring regions, drawing (clearing, rectangles, circles) on the bytes of
    a frame, and zstd-compressed canvas states;
  - `input/`: decoding of the Wacom digitizer, the multitouch screen and the
    physical buttons from raw evdev events, rotation of device coordinates into
    portrait, and recognising the devices from their capabilities;
  - `handlers/` and `unifiedinput.rs`: the simpler per-device handlers and the
    handler that dispatches by device name;
  - `device.rs`, `battery.rs`, `text.rs`: the tablet model from the machine
    name, battery attributes parsed from sysfs contents, and the string
    trimming and integer parsing they rely on;
  - `ui_extensions/`, `appctx.rs`: the decisions of redrawing a UI element
    and of routing touches to active regions (the application context itself
    is not included; see below).
- `app/` is the part that talks to the hardware: the memory-mapped
  framebuffer and its ioctls, the evdev reader threads (which scale positions
  to the display as floats), scaling of the simple handlers' events, sysfs
  reads and the Lua binding (`fb.clear` only).
- `tests/` exercises the library on concrete values.

Not included: the application context (UI elements, active regions, the Lua
state and its `refresh`, `draw_text` and `set_pixel` functions), drawing of
text, images, lines, rectangle outlines, polygons and Bézier curves, and the
rm2fb software framebuffer client. They need a colour model, a line
rasteriser, a font and the rm2fb client, none of which this crate has. Only
the ioctl framebuffer interface is supported.
