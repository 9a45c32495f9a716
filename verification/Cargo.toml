[package]
name = "mint_lib"
version = "0.1.0"
edition = "2021"
publish = false

[dependencies]
anyhow = "=1.0.104"
fs-err = "=2.11.0"
serde = { version = "=1.0.229", features = ["derive"] }
snafu = "=0.8.9"
steamlocate = "=2.1.1"
tokio = { version = "=1.54.1", features = ["rt"] }
tracing = "=0.1.44"
tracing-appender = "=0.2.5"
tracing-subscriber = { version = "=0.3.23", features = ["env-filter"] }
unreal_asset = "=0.1.16"
