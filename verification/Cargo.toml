[package]
name = "todo_auth"
version = "0.1.0"
edition = "2021"
publish = false

[dependencies]
rust-argon2 = "*"
cookie = { version = "*", features = ["private"] }
