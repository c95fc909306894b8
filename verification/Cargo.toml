[package]
name = "gw2_location_log"
version = "0.1.0"
edition = "2021"
publish = false

[dependencies]
clap = { version = "3", features = ["derive"] }
csv = "1"
mumblelink_reader = "*"
serde = { version = "1", features = ["derive"] }
