[package]
name = "hotel_booking"
version = "0.1.0"
edition = "2021"
publish = false

[dependencies]
axum = "=0.8.9"
bcrypt = "=0.19.3"
chrono = "=0.4.45"
dotenvy = "=0.15.7"
http = "=1.5.0"
jsonwebtoken = { version = "=11.1.0", features = ["rust_crypto"] }
redis = { version = "=1.7.1", default-features = false, features = ["tokio-comp"] }
serde = { version = "=1.0.229", features = ["derive"] }
serde_json = "=1.0.151"
sqlx = { version = "=0.9.0", default-features = false, features = ["runtime-tokio", "postgres", "chrono", "migrate"] }
tokio = { version = "=1.53.2", features = ["macros", "rt-multi-thread", "net"] }
tower-http = { version = "=0.7.1", features = ["cors"] }
tracing = "=0.1.44"
tracing-subscriber = "=0.3.23"
