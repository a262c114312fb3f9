[package]
name = "imageboard"
version = "0.1.0"
edition = "2021"
publish = false

[dependencies]
actix-files = "0.6"
actix-multipart = { version = "0.6", default-features = false }
actix-web = { version = "4", default-features = false, features = ["macros"] }
env_logger = "0.10"
futures-util = "0.3"
html-escape = "0.2"
image = { version = "0.24", default-features = false, features = ["gif", "jpeg", "png", "webp"] }
log = "0.4"
mime_guess = "2"
uuid = { version = "1", features = ["v4"] }
