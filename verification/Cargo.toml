[package]
name = "dictation_core"
version = "0.1.0"
edition = "2021"
publish = false

[dependencies]
anyhow = "=1.0.104"
arboard = { version = "=3.7.0", default-features = false }
async-trait = "=0.1.92"
cocoa = "=0.27.0"
global-hotkey = "=0.8.0"
log = "=0.4.34"
objc = "=0.2.7"
serde = { version = "=1.0.229", features = ["derive"] }
tokio = { version = "=1.54.1", features = ["macros", "rt", "sync", "time"] }
