[package]
name = "dht_actor"
version = "0.1.0"
edition = "2021"
publish = false

[dependencies]
futures = "0.3"
log = "0.4"
tari_shutdown = "*"
