[package]
name = "lumina_tv"
version = "0.1.0"
edition = "2021"
publish = false

[dependencies]
serde = { version = "1", features = ["derive"] }
serde_json = "1"
dirs = "*"
tokio = { version = "1", features = ["rt-multi-thread", "macros", "sync", "time"] }
image = { version = "*", default-features = false }
nokhwa = { version = "*", default-features = false }
screencapturekit = "*"
core-graphics = "*"
objc2 = "*"
objc2-foundation = "*"
objc2-av-foundation = "*"
objc2-core-video = "*"
block2 = "*"
dispatch2 = "*"
