[package]
name = "margo_p2p"
version = "0.1.0"
edition = "2021"
publish = false

[dependencies]
libp2p = { version = "*", features = ["tokio", "tcp", "noise", "yamux", "mdns", "identify", "ping", "macros"] }
snafu = "*"
