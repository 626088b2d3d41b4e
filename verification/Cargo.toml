[package]
name = "rustroarch"
version = "0.1.0"
edition = "2021"
publish = false

[dependencies]
clap = { version = "=4.6.7", features = ["derive"] }
gilrs = "=0.11.2"
libc = "=0.2.190"
libloading = "=0.9.0"
libretro-sys = "=0.1.1"
minifb = "=0.29.0"
once_cell = "=1.21.4"
rodio = { version = "=0.22.2", default-features = false, features = ["playback"] }
shellexpand = "=3.1.2"
