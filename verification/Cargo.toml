[package]
name = "consul_client"
version = "0.1.0"
edition = "2021"
publish = false

[dependencies]
hyper = "0.12"
futures = "0.1"
serde = "1"
serde_derive = "1"
serde_json = "1"
