[package]
name = "newsletter"
version = "0.1.0"
edition = "2021"
publish = false

[dependencies]
unicode-segmentation = "=1.13.3"
validator = "=0.16.1"
rand = "=0.8.8"
uuid = { version = "=1.27.0", features = ["v4"] }
actix-web = "4"
sqlx = { version = "0.7", default-features = false, features = ["postgres", "runtime-tokio", "macros", "uuid"] }
reqwest = { version = "0.11", default-features = false, features = ["json"] }
serde = { version = "1", features = ["derive"] }
tracing = "0.1"
