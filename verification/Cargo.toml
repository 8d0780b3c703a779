[package]
name = "cr8s"
version = "0.1.0"
edition = "2021"
publish = false

[dependencies]
anyhow = "*"
argon2 = "*"
rand = "*"
chrono = { version = "*", default-features = false, features = ["clock"] }
tokio = { version = "*", features = ["rt-multi-thread", "macros", "time"] }
sqlx = { version = "*", default-features = false, features = ["postgres", "runtime-tokio", "chrono"] }
deadpool-redis = { version = "*", features = ["rt_tokio_1"] }
