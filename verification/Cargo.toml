[package]
name = "imangry"
version = "0.1.0"
edition = "2021"
publish = false

[dependencies]
actix = "0.7"
actix-web = { version = "0.7", default-features = false }
byteorder = "1"
bytes = "0.4"
futures = "0.1"
htmlescape = "0.3"
rand = "0.5"
serde = "1"
serde_derive = "1"
sled = "0.15"
tokio-threadpool = "0.1"
