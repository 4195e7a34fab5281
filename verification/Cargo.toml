[package]
name = "netdiag"
version = "0.1.0"
edition = "2021"
publish = false

[dependencies]
etherparse = "0.16"
chrono = "0.4"
uuid = { version = "1", features = ["v4"] }
serde = { version = "1", features = ["derive"] }
serde_json = "1"
toml = "0.8"
thiserror = "1"
clap = { version = "4", features = ["derive"] }
pcap = "2"
