[package]
name = "environment_server"
version = "0.1.0"
edition = "2021"
publish = false

[dependencies]
http = "=0.2.12"
actix-web = { version = "=4.18.1", default-features = false, features = ["macros"] }
serde = { version = "=1.0.229", features = ["derive"] }
clap = { version = "=3.2.25", features = ["derive"] }
libloading = "=0.7.4"
tokio = { version = "=1.54.1", features = ["macros", "rt-multi-thread"] }
