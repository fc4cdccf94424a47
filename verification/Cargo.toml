[package]
name = "dev-hud"
version = "0.1.0"
edition = "2021"
publish = false

[dependencies]
serde_json = "1"
dirs = "6"
futures = "0.3"
image = { version = "0.25", default-features = false, features = ["gif", "png"] }
