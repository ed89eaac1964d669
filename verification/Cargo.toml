[package]
name = "ato_sandbox"
version = "0.1.0"
edition = "2021"
publish = false

[dependencies]
rand = "0.8"
nix = "0.26"
capctl = "0.2"
clone3 = "0.2"
close_fds = "0.3"
neli = "0.6"
netdevice = "0.1"
tungstenite = "0.20"
serde = { version = "1", features = ["derive"] }
serde_json = "1"
lazy_static = "1"
