[package]
name = "block_metadata_sink"
version = "0.1.0"
edition = "2021"
publish = false

[dependencies]
chrono = "0.4"
log = "0.4"
postgres = { version = "0.19", features = ["with-chrono-0_4"] }
postgres-types = { version = "0.2", features = ["derive"] }
