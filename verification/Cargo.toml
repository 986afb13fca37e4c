[package]
name = "openadr"
version = "0.1.0"
edition = "2021"
publish = false

[dependencies]
rangemap = "1"
iso8601-duration = { version = "0.2", features = ["chrono"] }
chrono = { version = "0.4", features = ["serde"] }
uuid = { version = "1", features = ["v4"] }
serde = { version = "1", features = ["derive"] }
serde_json = "1"
serde_with = "3"
thiserror = "1"
tokio = { version = "1", features = ["full"] }
axum = "0.7"
axum-extra = { version = "0.9", features = ["typed-header", "query", "form"] }
tower = { version = "0.4", features = ["util"] }
tower-http = { version = "0.5", features = ["trace"] }
http-body-util = "0.1"
reqwest = { version = "0.12", default-features = false, features = ["json"] }
url = "2"
jsonwebtoken = "9"
argon2 = "0.5"
validator = { version = "0.18", features = ["derive"] }
tracing = "0.1"
tracing-subscriber = { version = "0.3", features = ["env-filter"] }
dotenvy = "0.15"
sqlx = { version = "0.8", default-features = false, features = ["postgres", "runtime-tokio", "chrono", "macros"] }
