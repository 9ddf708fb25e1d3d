[package]
name = "craftgif"
version = "0.1.0"
edition = "2021"
publish = false

[dependencies]
anyhow = "*"
clap = { version = "*", features = ["derive"] }
gif = "*"
image = "*"
rand = "*"
serde = { version = "*", features = ["derive"] }
toml = "*"
