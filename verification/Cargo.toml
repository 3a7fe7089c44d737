[package]
name = "login_gate"
version = "0.1.0"
edition = "2021"
publish = false

[dependencies]
actix-web = { version = "4", default-features = false, features = ["cookies"] }
futures-util = { version = "0.3", default-features = false, features = ["std"] }
