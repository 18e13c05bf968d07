[package]
name = "blog"
version = "0.1.0"
edition = "2021"
publish = false

[dependencies]
actix-web = { version = "4", default-features = false, features = ["macros"] }
mime_guess = "2"
tera = "1"
