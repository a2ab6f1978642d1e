[package]
name = "esp_remote"
version = "0.1.0"
edition = "2021"
publish = false

[dependencies]
frankenstein = { version = "*", default-features = false }
serde_json = "*"
serde = "*"
log = "*"
anyhow = "*"
thiserror = "*"
embedded-svc = "*"
esp-idf-svc = "*"
toml-cfg = "*"
