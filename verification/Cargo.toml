[package]
name = "rustmission"
version = "0.1.0"
edition = "2021"
publish = false

[dependencies]
tui-input = "0.11"
zune-inflate = "0.2"
crossterm = "0.28"
ratatui = "0.29"
tui-tree-widget = "0.23"
throbber-widgets-tui = "0.8"
tokio = { version = "1", features = ["rt-multi-thread", "macros", "sync", "time"] }
futures = "0.3"
magnetease = "*"
transmission-rpc = "*"
reqwest = "0.12"
open = "5"
clap = { version = "4", features = ["derive"] }
color-eyre = "0.6"
tracing = "0.1"
tracing-subscriber = "0.3"
xdg = "2"
