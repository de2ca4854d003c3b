[package]
name = "afri_mesh"
version = "0.1.0"
edition = "2021"
publish = false

[dependencies]
libp2p = { version = "0.53", features = ["tokio", "gossipsub", "mdns", "noise", "macros", "tcp", "yamux", "ed25519"] }
tokio = { version = "1", features = ["full"] }
futures = "0.3"
ratatui = "0.26"
crossterm = "0.27"
thiserror = "1"
