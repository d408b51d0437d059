[package]
name = "pla2html"
version = "0.1.0"
edition = "2021"
publish = false

[dependencies]
chrono = { version = "0.4", default-features = false, features = ["std"] }
clap = { version = "3", features = ["derive"] }
horrorshow = "0.8"
regex = "1"
