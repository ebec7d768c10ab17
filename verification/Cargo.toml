[package]
name = "hold_rightclick"
version = "0.1.0"
edition = "2021"
publish = false

[dependencies]
anyhow = "*"
evdev = "*"
tokio = { version = "*", features = ["io-util", "macros", "process", "rt-multi-thread", "sync", "time"] }
