[package]
name = "vlan_scanner"
version = "1.0.0"
edition = "2021"
publish = false

[dependencies]
chrono = "0.4"
ipnetwork = "*"
regex = "1"
serde = { version = "1", features = ["derive"] }
serde_json = "1"
