[package]
name = "drive_gateway"
version = "0.1.0"
edition = "2021"
publish = false

[dependencies]
actix-cors = "*"
actix-multipart = "*"
actix-web = "*"
futures-util = "*"
google-drive3 = "*"
hyper = "*"
hyper-rustls = "*"
serde = { version = "*", features = ["derive"] }
tokio = { version = "*", features = ["macros", "rt-multi-thread", "sync"] }
yup-oauth2 = "*"
