[package]
name = "admin_backend"
version = "0.1.0"
edition = "2021"
publish = false

[dependencies]
actix-cors = "0.6"
actix-multipart = "0.6"
actix-web = { version = "4", default-features = false, features = ["macros"] }
axum = "0.7"
bcrypt = "0.15"
chrono = { version = "0.4", default-features = false, features = ["clock", "serde"] }
color-eyre = "0.6"
dotenv = "0.15"
env_logger = { version = "0.10", default-features = false }
futures = "0.3"
hyper = "1"
jsonwebtoken = "9"
log = "0.4"
serde = { version = "1", features = ["derive"] }
serde_json = "1"
sqlx = { version = "0.8", default-features = false, features = ["runtime-tokio", "postgres", "uuid", "chrono", "derive"] }
thiserror = "1"
tokio = { version = "1", features = ["macros", "rt-multi-thread", "net"] }
tower-http = { version = "0.5", features = ["cors", "trace"] }
tracing = "0.1"
tracing-subscriber = { version = "0.3", features = ["env-filter"] }
uuid = { version = "1", features = ["v4", "serde"] }
validator = { version = "0.16", features = ["derive"] }
