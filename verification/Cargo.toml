[package]
name = "axum_bindform"
version = "0.1.0"
edition = "2021"
publish = false

[dependencies]
axum = { version = "0.6", default-features = false }
mime = "0.3"
serde = "1"
serde_json = "1"
serde_urlencoded = "0.7"
serde-xml-rs = "0.6"
thiserror = "1"
