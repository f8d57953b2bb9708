[package]
name = "music-discord-rpc"
version = "0.1.0"
edition = "2021"
publish = false

[dependencies]
clap = { version = "=4.6.7", features = ["derive"] }
clap-serde-derive = "=0.2.1"
discord-rich-presence = "=1.1.0"
mpris = "=2.1.0"
pickledb = "=0.5.1"
reqwest = { version = "=0.12.28", features = ["blocking", "json"] }
serde = { version = "=1.0.229", features = ["derive"] }
serde_json = "=1.0.154"
serde_yaml = "=0.9.34"
url-escape = "=0.1.2"
