[package]
name = "antigravity_core"
version = "0.1.0"
edition = "2021"
publish = false

[dependencies]
clap = { version = "=4.6.7", features = ["derive"] }
comfy-table = "=7.2.2"
tokio = { version = "=1.54.1", features = ["macros", "rt-multi-thread", "signal", "time"] }
tracing-subscriber = { version = "=0.3.23", features = ["env-filter"] }
