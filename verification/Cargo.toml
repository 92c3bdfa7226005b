[package]
name = "frob"
version = "0.1.0"
edition = "2021"
publish = false

[dependencies]
anyhow = "=1.0.104"
clap = { version = "=3.2.25", features = ["derive"] }
clap_complete = "=3.2.5"
dbus = { version = "=0.9.12", features = ["vendored"] }
libpulse-binding = "=2.30.1"
serde = { version = "=1.0.229", features = ["derive"] }
serde_json = "=1.0.154"
x11rb = "=0.13.2"
