[package]
name = "honk"
version = "0.1.0"
edition = "2021"
publish = false

[dependencies]
clap = { version = "=3.2.25", features = ["derive"] }
logos = "=0.12.1"

[dev-dependencies]
chumsky = "=0.8.0"
