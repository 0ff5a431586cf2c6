[package]
name = "musicplayer"
version = "0.1.0"
edition = "2021"
publish = false

[dependencies]
rand = "0.8"
base64 = "0.22"
rodio = "0.19"
cpal = "0.15"
symphonia = "0.5"
lofty = "0.21"
audiotags = "0.5"
rusqlite = { version = "0.31", features = ["bundled"] }
chrono = { version = "0.4", features = ["serde"] }
serde = { version = "1", features = ["derive"] }
walkdir = "2"
tokio = { version = "1", features = ["rt-multi-thread", "macros", "time"] }
rustfft = "6"
