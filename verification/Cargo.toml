[package]
name = "newsletter"
version = "0.1.0"
edition = "2021"
publish = false

[dependencies]
actix-web = { version = "=4.18.1", default-features = false, features = ["macros"] }
chrono = { version = "=0.4.45", default-features = false, features = ["clock"] }
reqwest = { version = "=0.11.27", default-features = false, features = ["json", "rustls-tls"] }
secrecy = "=0.8.0"
serde = { version = "=1.0.229", features = ["derive"] }
sqlx = { version = "=0.7.4", default-features = false, features = ["runtime-tokio", "postgres", "uuid", "chrono"] }
tokio = { version = "=1.54.1", features = ["macros", "rt-multi-thread"] }
tracing = "=0.1.44"
tracing-subscriber = { version = "0.3", features = ["env-filter"] }
unicode-segmentation = "=1.13.3"
uuid = { version = "=1.29.0", features = ["v4"] }
validator = "=0.16.1"
