[package]
name = "walk_the_dog"
version = "0.1.0"
edition = "2021"
publish = false

[dependencies]
anyhow = "1"
async-trait = "0.1"
web-sys = { version = "0.3", features = ["HtmlImageElement"] }
