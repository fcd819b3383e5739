[package]
name = "heartbeat_mailer"
version = "0.1.0"
edition = "2021"
publish = false

[dependencies]
chrono = "0.4"
lettre = { version = "0.11", default-features = false, features = ["builder", "smtp-transport", "rustls-tls", "hostname"] }
rand = "0.8"
serde = { version = "1", features = ["derive"] }
serde_json = "1"
