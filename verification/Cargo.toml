[package]
name = "libwmgr"
version = "0.1.0"
edition = "2021"
publish = false

[dependencies]
bitflags = "2"
objc2 = "0.6"
objc2-app-kit = "0.3"
objc2-application-services = "0.3"
objc2-core-foundation = "0.3"
objc2-core-graphics = "0.3"
serde = { version = "1", features = ["derive"] }
serde_plain = "1"
