[package]
name = "registrar"
version = "0.1.0"
edition = "2021"
publish = false

[dependencies]
uuid = { version = "*", features = ["v4"] }
chrono = { version = "*", default-features = false, features = ["clock"] }
serde = { version = "*", features = ["derive"] }
serde_json = "*"
sqlx = { version = "*", default-features = false, features = ["postgres", "runtime-tokio", "uuid", "chrono"] }
tokio = { version = "*", features = ["macros", "rt-multi-thread", "signal"] }
axum = "*"
nats = "*"
clap = { version = "*", features = ["derive", "env"] }
