[package]
name = "newsletter"
version = "0.1.0"
edition = "2021"
publish = false

[dependencies]
secrecy = "0.8"
rand = "0.8"
unicode-segmentation = "1"
actix-web = "4"
reqwest = { version = "0.11", default-features = false, features = ["json"] }
serde = { version = "1", features = ["derive"] }
sqlx = { version = "0.7", default-features = false, features = ["runtime-tokio", "postgres", "uuid", "chrono"] }
uuid = { version = "1", features = ["v4"] }
chrono = { version = "0.4", default-features = false, features = ["clock"] }
