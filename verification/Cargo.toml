[package]
name = "library_loader"
version = "0.1.0"
edition = "2021"
publish = false

[dependencies]
clap = "2.33"
dirs = "3.0"
regex = "1"
serde = { version = "1.0", features = ["derive"] }
toml = "0.5"
