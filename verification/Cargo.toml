[package]
name = "libdnscheck"
version = "0.1.0"
edition = "2021"
publish = false

[dependencies]
dbus = { version = "=0.9.12", features = ["vendored"] }
generate-dbus-resolve1 = "=1.1.0"
libc = "=0.2.190"
