[package]
name = "export_doctor"
version = "0.1.0"
edition = "2021"
publish = false

[dependencies]
sha2 = "0.10"
hostname = "*"
whoami = "1"
serde = { version = "1", features = ["derive"] }
serde_json = "1"
reqwest = { version = "0.12", default-features = false, features = ["blocking", "json"] }
