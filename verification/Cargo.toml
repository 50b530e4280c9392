[package]
name = "file_server"
version = "0.1.0"
edition = "2021"
publish = false

[dependencies]
sanitize-filename = "*"
rustls-pemfile = "2"
actix-web = { version = "4", features = ["rustls"] }
actix-multipart = "*"
clap = "4"
futures = "0.3"
rustls = "0.20"
tokio = { version = "1", features = ["full"] }
tokio-util = { version = "0.7", features = ["io"] }
