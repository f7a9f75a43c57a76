[package]
name = "ore_miner"
version = "0.1.0"
edition = "2021"
publish = false

[dependencies]
rand = "=0.8.8"
url = "=2.5.8"
serde_json = "=1.0.151"
ore-api = "=2.7.0"
