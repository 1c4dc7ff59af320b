[package]
name = "div176"
version = "0.1.0"
edition = "2021"
publish = false

[dependencies]
argon2 = "*"
rand = "*"
axum = "*"
axum-extra = { version = "*", features = ["cookie"] }
tokio = { version = "*", features = ["full"] }
sqlx = { version = "*", default-features = false, features = ["postgres", "runtime-tokio"] }
serde = { version = "*", features = ["derive"] }
