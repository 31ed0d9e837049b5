[package]
name = "greetd"
version = "0.1.0"
edition = "2021"
publish = false

[dependencies]
libc = "0.2"
nix = { version = "0.29", features = ["fs", "ioctl", "process", "signal", "user"] }
pam = "0.8"
serde = { version = "1", features = ["derive"] }
serde_json = "1"
toml = "0.8"
