[package]
name = "binance_proxy"
version = "0.1.0"
edition = "2021"
publish = false

[dependencies]
url = "2"
reqwest = { version = "0.12", default-features = false }
actix-web = { version = "4", default-features = false, features = ["macros"] }
