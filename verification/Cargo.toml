[package]
name = "libremarkable"
version = "0.1.0"
edition = "2021"
publish = false

[dependencies]
zstd = "0.13"
fxhash = "0.2"
cgmath = "0.18"
libc = "0.2"
memmap2 = "0.9"
evdev = "0.12"
epoll = "4.3"
image = { version = "0.24", default-features = false }
line_drawing = "1.0"
rusttype = "0.9"
once_cell = "1"
log = "0.4"
hlua = "0.4"
aabb-quadtree = "0.2"
