[package]
name = "moon_task_builder"
version = "0.1.0"
edition = "2021"
publish = false

[dependencies]
shell-words = "1"
rustc-hash = "1"
starbase_events = "*"
miette = "5"
serde = { version = "1", features = ["derive"] }
serde_yaml = "0.9"
tracing = "0.1"
