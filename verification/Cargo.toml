[package]
name = "pagination"
version = "0.1.0"
edition = "2021"
publish = false

[dependencies]
axum = { version = "*", default-features = false }
serde = { version = "1", features = ["derive"] }
thiserror = "*"
utoipa = "*"
