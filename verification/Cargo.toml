[package]
name = "bevy_embedded"
version = "0.1.0"
edition = "2021"
publish = false

[dependencies]
bevy = { version = "=0.17.3", default-features = false, features = ["std", "bevy_window", "bevy_log"] }
crossbeam-channel = "=0.5.17"
futures-lite = "=2.6.1"
jni = "=0.21.1"
log = "=0.4.34"
ndk = "=0.9.0"
ndk-context = "=0.1.1"
ndk-sys = "=0.6.0"
raw-window-handle = "=0.6.2"
