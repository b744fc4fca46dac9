[package]
name = "frame_handoff"
version = "0.1.0"
edition = "2021"
publish = false

[dependencies]
anyhow = "1"
byte-slice-cast = "1"
derive_more = "0.99"
glutin_wgl_sys = "0.1"
gstreamer = "0.18"
gstreamer-app = "0.18"
gstreamer-gl = "0.18"
gstreamer-video = "0.18"
image = { version = "0.24", default-features = false }
libc = "0.2"
