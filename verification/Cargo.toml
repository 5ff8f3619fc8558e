[package]
name = "vereinsflieger"
version = "0.1.0"
edition = "2021"
publish = false

[dependencies]
md-5 = "*"
html-escape = "*"
serde_json = "*"
serde_path_to_error = "*"
serde_urlencoded = "*"
reqwest = { version = "*", default-features = false }
