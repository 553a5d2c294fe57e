[package]
name = "chess_peer"
version = "0.1.0"
edition = "2021"
publish = false

[dependencies]
chess-lib = "*"
ggez = { version = "0.9", default-features = false }
rmp-serde = "*"
serde = { version = "*", features = ["derive"] }
