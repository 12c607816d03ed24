[package]
name = "pomodoro"
version = "0.1.0"
edition = "2021"
publish = false

[dependencies]
chrono = "*"
dirs = "*"
rodio = "*"
tokio = { version = "*", features = ["net", "io-util", "rt-multi-thread", "macros"] }
