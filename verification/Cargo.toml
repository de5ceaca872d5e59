[package]
name = "oauth_login"
version = "0.1.0"
edition = "2021"
publish = false

[dependencies]
serde_json = "1"
url = "2"
rand = "0.8"
reqwest = { version = "*", default-features = false, features = ["blocking", "form"] }
