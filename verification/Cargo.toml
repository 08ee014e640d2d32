[package]
name = "auth_gate"
version = "0.1.0"
edition = "2021"
publish = false

[dependencies]
uuid = "1"
actix-web = { version = "4", default-features = false, features = ["cookies"] }
futures-util = "0.3"
