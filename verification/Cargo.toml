[package]
name = "aranet_dashboard"
version = "0.1.0"
edition = "2021"
publish = false

[dependencies]
anyhow = "1"
aranet4 = "*"
argh = "0.1"
chrono = "0.4"
crossterm = "0.25"
log = "0.4"
tokio = { version = "1", features = ["sync", "time", "rt-multi-thread", "macros"] }
tui = "0.19"
tui-logger = "0.9"
