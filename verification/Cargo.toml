[package]
name = "git_deploy"
version = "0.1.0"
edition = "2021"
publish = false

[dependencies]
anyhow = "1"
axum = "0.6"
axum-extra = "0.7"
chrono = { version = "0.4", features = ["serde"] }
data-encoding = "2"
flate2 = "1"
git2 = { version = "0.18", default-features = false }
http-body = "0.4"
hyper = { version = "0.14", features = ["full"] }
serde = { version = "1", features = ["derive"] }
serde_json = "1"
sqlx = { version = "0.7", default-features = false, features = ["runtime-tokio", "postgres", "uuid", "chrono"] }
thiserror = "1"
tokio = { version = "1", features = ["full"] }
tower-http = { version = "0.4", features = ["limit"] }
tracing = "0.1"
ulid = { version = "1", features = ["uuid"] }
uuid = "1"
