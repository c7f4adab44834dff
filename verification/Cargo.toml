[package]
name = "rotchess_net"
version = "0.1.0"
edition = "2021"
publish = false

[dependencies]
ggez = "*"
rand = "*"
tokio = { version = "*", features = ["macros", "rt-multi-thread", "sync"] }
