[package]
name = "jenkins_tray"
version = "0.1.0"
edition = "2021"
publish = false

[dependencies]
serde = { version = "*", features = ["derive"] }
serde_json = "*"
toml = "*"
url = "*"
reqwest = { version = "*", default-features = false, features = ["blocking"] }
