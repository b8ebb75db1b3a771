[package]
name = "dontpanic"
version = "0.1.0"
edition = "2021"
publish = false

[dependencies]
log = "0.4"
ring-channel = "0.12"
tracing = "0.1"
tracing-subscriber = "0.3"
ureq = { version = "2", default-features = false, features = ["json"] }
