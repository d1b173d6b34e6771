[package]
name = "userauth"
version = "0.1.0"
edition = "2021"
publish = false

[dependencies]
bcrypt = "*"
actix-web = "*"
tokio = { version = "*", features = ["rt", "macros"] }
tokio-postgres = "*"
serde = { version = "*", features = ["derive"] }
