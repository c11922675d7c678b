[package]
name = "elysium"
version = "0.1.0"
edition = "2021"
publish = false

[dependencies]
anyhow = "*"
aws-config = "*"
aws-sdk-greengrassv2 = "*"
aws-sdk-iot = "*"
aws-types = "*"
better-panic = "*"
clap = { version = "*", features = ["derive", "env", "cargo"] }
color-eyre = "*"
crossterm = { version = "*", features = ["event-stream"] }
futures = "*"
itertools = "*"
ratatui = "*"
strum = { version = "*", features = ["derive"] }
tokio = { version = "*", features = ["full"] }
tracing = "*"
tui-input = "*"
unicode-width = "*"
