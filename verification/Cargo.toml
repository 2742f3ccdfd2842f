[package]
name = "hyprdisplay"
version = "0.1.0"
edition = "2021"
publish = false

[dependencies]
clap = { version = "4", features = ["derive"] }
color-eyre = "*"
crossterm = "*"
hyprland = "*"
notify-rust = "4"
ratatui = "*"
rustofi = "*"
serde = { version = "1", features = ["derive"] }
serde_json = "1"
