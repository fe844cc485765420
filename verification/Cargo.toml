[package]
name = "chatme_core"
version = "0.1.0"
edition = "2021"
publish = false

[dependencies]
serde_json = "1"
regex = "1"
chrono = "0.4"
mime_guess = "2"
opener = "*"
walkdir = "2"
reqwest = { version = "*", default-features = false, features = ["blocking"] }
