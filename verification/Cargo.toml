[package]
name = "zeiterfassung_backend"
version = "0.1.0"
edition = "2021"
publish = false

[dependencies]
argon2 = "0.5"
jwt-simple = { version = "0.12", default-features = false, features = ["pure-rust"] }
serde_json = "1"
serde = { version = "1", features = ["derive"] }
chrono = { version = "0.4", default-features = false, features = ["std", "serde"] }
rocket = { version = "0.5", features = ["json"] }
rocket_cors = "0.6"
thiserror = "1"
tracing = "0.1"
