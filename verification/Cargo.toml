[package]
name = "sessionctl"
version = "0.1.0"
edition = "2021"
publish = false

[dependencies]
clap = { version = "4", features = ["derive"] }
dialoguer = { version = "0.10", features = ["fuzzy-select"] }
tmux_interface = "0.2"
which = "4"
