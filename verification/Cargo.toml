[package]
name = "convertoid"
version = "0.1.0"
edition = "2021"
publish = false

[dependencies]
hex = "*"
anyhow = "*"
bytes = "*"
dialoguer = "*"
dotenv = "*"
futures = "*"
log = "*"
reqwest = { version = "*", default-features = false }
simplelog = "*"
structopt = "*"
tokio = { version = "*", features = ["full"] }
walkdir = "*"
