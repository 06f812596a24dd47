[package]
name = "kiwi"
version = "0.1.0"
edition = "2021"
publish = false

[dependencies]
evdev = "0.12"
image = { version = "0.25", default-features = false, features = ["png"] }
ksni = "0.2"
zbus = "4"
tokio = { version = "1", features = ["rt-multi-thread", "macros"] }
crossbeam-channel = "0.5"
log = "0.4"
env_logger = "0.11"
libc = "0.2"
serde = { version = "1", features = ["derive"] }
input = "0.9"
