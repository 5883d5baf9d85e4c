[package]
name = "pomodoro_timer"
version = "0.1.0"
edition = "2021"
publish = false

[dependencies]
rand = "0.8"
dirs = "6"
serde = { version = "1", features = ["derive"] }
toml = "0.8"
rodio = "0.20"
lofty = "0.22"
image = { version = "0.25", default-features = false, features = ["png", "jpeg", "webp", "bmp"] }
tokio = { version = "1", features = ["rt"] }
rfd = "0.15"
dark-light = "2"
fontdb = "0.23"
tracing = "0.1"
tracing-subscriber = { version = "0.3", features = ["env-filter"] }
