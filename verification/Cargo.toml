[package]
name = "wikiquery"
version = "0.1.0"
edition = "2021"
publish = false

[dependencies]
http = "0.2"
serde = "1"

[dev-dependencies]
serde_json = "1"
