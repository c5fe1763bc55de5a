[package]
name = "pwmd"
version = "0.1.0"
edition = "2021"
publish = false

[dependencies]
anyhow = "=1.0.104"
structopt = "=0.3.26"
tokio = { version = "=1.54.1", features = ["macros", "rt-multi-thread", "sync"] }
tracing = "=0.1.44"
tracing-subscriber = { version = "=0.3.23", features = ["env-filter"] }
zbus = "=2.3.2"
