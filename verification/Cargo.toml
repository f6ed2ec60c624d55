[package]
name = "tictactoe_client"
version = "0.1.0"
edition = "2021"
publish = false

[dependencies]
anyhow = "=1.0.104"
bcs = "=0.1.6"
clap = { version = "=4.5.61", features = ["derive"] }
dirs = "=5.0.1"
serde = { version = "=1.0.229", features = ["derive"] }
