[package]
name = "waycap-rs"
version = "1.0.0"
edition = "2021"
publish = false

[dependencies]
bytemuck = "1"
crossbeam = "0.8"
cust = "0.3"
drm-fourcc = "2"
ffmpeg-next = "7"
gl = "0.14"
image = { version = "0.25", default-features = false }
khronos-egl = { version = "6", features = ["dynamic"] }
libc = "0.2"
libloading = "0.8"
log = "0.4"
pipewire = "0.8"
portal-screencast-waycap = "*"
ringbuf = "0.4"
wayland-client = { version = "0.29", features = ["use_system_lib"] }
