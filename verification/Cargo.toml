[package]
name = "plop_tui"
version = "0.1.0"
edition = "2021"
publish = false

[dependencies]
crossterm = "0.25"
eyre = "0.6"
log = "0.4"
tokio = { version = "1", features = ["macros", "rt-multi-thread", "sync", "time"] }
tui = { version = "0.19", default-features = false, features = ["crossterm"] }
tui-logger = "0.8"
