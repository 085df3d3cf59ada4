[package]
name = "notify_rust"
version = "0.1.0"
edition = "2021"
publish = false

[dependencies]
async-std = "=1.13.2"
dbus = { version = "=0.9.12", features = ["vendored"] }
event-listener = "=2.5.3"
log = "=0.4.34"
zbus = "=3.15.2"
