[package]
name = "music_manager"
version = "0.1.0"
edition = "2021"
publish = false

[dependencies]
anyhow = "*"
clap = { version = "*", features = ["derive"] }
colored = "*"
directories = "*"
glob = "*"
lofty = "*"
log = "*"
serde = { version = "*", features = ["derive"] }
simplelog = "*"
toml = "*"
