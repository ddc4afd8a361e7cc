[package]
name = "sonictunes"
version = "0.1.0"
edition = "2021"
publish = false

[dependencies]
crossbeam = "=0.8.5"
# Not called by name: its `vendored` feature has the D-Bus library that
# souvlaki links to built from the sources it brings, where the system has none.
dbus = { version = "=0.9.12", features = ["vendored"] }
libmpv2 = "=6.0.0"
log = { version = "=0.4.34", features = ["std"] }
rand = "=0.9.5"
ratatui = "=0.30.2"
reqwest = { version = "=0.12.28", default-features = false, features = ["blocking", "json"] }
serde = { version = "=1.0.229", features = ["derive"] }
souvlaki = "=0.8.3"
