[package]
name = "zero2prod"
version = "0.1.0"
edition = "2021"
publish = false

[dependencies]
actix-web = { version = "4", default-features = false }
tokio = { version = "1", features = ["macros", "rt-multi-thread"] }
