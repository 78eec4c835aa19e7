[package]
name = "fakegreet"
version = "0.1.0"
edition = "2021"
publish = false

[dependencies]
async-trait = "0.1"
futures = "0.3"
serde_json = { version = "1", features = ["preserve_order"] }
smol = "0.1"
