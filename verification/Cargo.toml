[package]
name = "kore_douyo"
version = "0.1.0"
edition = "2021"
publish = false

[dependencies]
axum = "*"
bcrypt = "*"
chrono = "*"
config = { version = "*", default-features = false, features = ["toml"] }
maud = "*"
serde = { version = "*", features = ["derive"] }
serde_json = "*"
serde_json_path = "*"
tokio = { version = "*", features = ["full"] }
tower-http = { version = "*", features = ["fs", "trace"] }
tracing = "*"
tracing-subscriber = { version = "*", features = ["env-filter"] }
uuid = { version = "*", features = ["v4"] }
