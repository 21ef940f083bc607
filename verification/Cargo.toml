[package]
name = "enkei"
version = "0.1.0"
edition = "2021"
publish = false

[dependencies]
chrono = "=0.4.45"
cached = "=0.56.0"
fast_image_resize = "=6.1.0"
image = "=0.24.9"
webp = "=0.3.1"
crossbeam-channel = "=0.5.17"
serde = { version = "1", features = ["derive"] }
serde-xml-rs = "=0.8.2"
bincode = "=1.3.3"
clap = { version = "=4.6.7", features = ["derive"] }
ezing = "=0.2.1"
send_wrapper = "=0.6.0"
wayland-client = { version = "0.29", features = ["dlopen"] }
wayland-protocols = { version = "0.29", features = ["client", "unstable_protocols"] }
wayland-egl = "0.29"
khronos-egl = { version = "=6.0.0", features = ["static"] }
gl = "=0.14.0"
