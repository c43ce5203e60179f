[package]
name = "termcam"
version = "0.1.0"
edition = "2021"
publish = false

[dependencies]
crossterm = "=0.29.0"
image = { version = "=0.25.10", default-features = false }
nokhwa = "=0.10.11"
rayon = "=1.12.0"
tokio = { version = "=1.54.1", features = ["rt-multi-thread", "macros", "sync"] }
