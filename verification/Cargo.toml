[package]
name = "service_startup"
version = "0.1.0"
edition = "2021"
publish = false

[dependencies]
serde_json = "1"
snafu = "0.7"
clap = { version = "4", features = ["derive"] }
tracing = "0.1"
tracing-subscriber = "0.3"
actix-web = { version = "4", default-features = false, features = ["macros"] }
