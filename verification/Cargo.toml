[package]
name = "tuidash"
version = "0.1.0"
edition = "2021"
publish = false

[dependencies]
image = "=0.25.10"
ratatui = "=0.30.2"
crossterm = { version = "=0.29.0", features = ["event-stream"] }
ratatui-image = { version = "=11.1.0", default-features = false, features = ["crossterm", "image-defaults"] }
plotters = "=0.3.7"
color-eyre = "=0.6.5"
tokio = { version = "=1.53.2", features = ["full"] }
tokio-stream = "=0.1.19"
