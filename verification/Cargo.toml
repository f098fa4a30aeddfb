[package]
name = "notify_dispatch"
version = "0.1.0"
edition = "2021"
publish = false

[dependencies]
base64 = "=0.22.1"
chrono = "=0.4.45"
hmac = "=0.12.1"
serde = { version = "=1.0.229", features = ["derive"] }
serde_json = "=1.0.151"
sha1 = "=0.10.7"
sha2 = "=0.10.9"
urlencoding = "=2.1.3"
uuid = { version = "=1.27.0", features = ["v4"] }
axum = "=0.8.9"
lettre = { version = "=0.11.23", default-features = false, features = ["builder", "smtp-transport", "tokio1"] }
reqwest = { version = "=0.12.28", default-features = false, features = ["json"] }
tokio = { version = "=1.53.2", features = ["macros", "net", "rt-multi-thread"] }
