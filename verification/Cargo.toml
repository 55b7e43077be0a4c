[package]
name = "osm_ingester"
version = "0.1.0"
edition = "2021"
publish = false

[dependencies]
anyhow = "1"
clap = { version = "3.2", features = ["derive"] }
env_logger = "0.9"
itertools = "0.10"
log = "0.4"
openssl = "0.10"
postgres = "0.19"
postgres-openssl = "0.5"
reqwest = { version = "0.11", features = ["blocking"] }
