[package]
name = "gemini_desktop"
version = "0.1.0"
edition = "2021"
publish = false

[dependencies]
http = "1"
log = "0.4"
reqwest = { version = "0.12", default-features = false, features = ["blocking", "cookies"] }
serde = "1"
serde_json = "1"
thiserror = "1"
