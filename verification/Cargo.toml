[package]
name = "uniffi_bindgen"
version = "0.1.0"
edition = "2021"
publish = false

[dependencies]
heck = "0.4"
weedle = "0.12"
anyhow = "1"
serde = { version = "1", features = ["derive"] }
toml = "0.5"
camino = "1"
fs-err = "2"
