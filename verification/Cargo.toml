[package]
name = "nosleep"
version = "0.1.0"
edition = "2021"
publish = false

[dependencies]
dbus = { version = "*", features = ["vendored"] }
