[package]
name = "md2htmlx"
version = "0.1.0"
edition = "2021"
publish = false

[dependencies]
clap = { version = "4", features = ["derive"] }
notify = "*"
pulldown-cmark = { version = "*", default-features = false, features = ["html"] }
