[package]
name = "arch-updates-rs"
version = "0.1.0"
edition = "2021"
publish = false

[dependencies]
anyhow = "1"
dirs = "*"
fs2 = "0.4"
glib = "0.18"
gtk = "0.18"
image = { version = "0.25", default-features = false, features = ["png"] }
log = "0.4"
notify = "*"
serde = { version = "1", features = ["derive"] }
signal-hook = "0.3"
simplelog = "0.12"
toml = "0.8"
tray-icon = "*"
