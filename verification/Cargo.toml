[package]
name = "spotatui"
version = "0.1.0"
edition = "2021"
publish = false

[dependencies]
anyhow = "=1.0.104"
block2 = "=0.6.2"
log = "=0.4.35"
objc2 = "=0.6.5"
objc2-app-kit = "=0.3.2"
objc2-foundation = "=0.3.2"
objc2-media-player = "=0.3.2"
reqwest = { version = "=0.13.5", default-features = false }
rspotify = { version = "=0.16.1", default-features = false, features = ["client-reqwest"] }
smtc-tokio = "=0.1.0"
tokio = { version = "=1.54.1", features = ["rt", "sync", "time", "macros"] }
