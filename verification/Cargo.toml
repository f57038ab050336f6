[package]
name = "url_shortener"
version = "0.1.0"
edition = "2021"
publish = false

[dependencies]
harsh = "0.2"
serde = { version = "1", features = ["derive"] }
mongodb = { version = "2", default-features = false, features = ["tokio-sync"] }
actix-web = { version = "4", default-features = false, features = ["macros"] }
