[package]
name = "config_2014_naga"
version = "0.1.0"
edition = "2021"
publish = false

[dependencies]
evdev-rs = "*"
libc = "0.2"
toml = "*"
uinput = { version = "0.1", default-features = false }
