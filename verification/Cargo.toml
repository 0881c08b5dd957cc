[package]
name = "sfx_launcher"
version = "0.1.0"
edition = "2021"

[dependencies]
clap = { version = "*", features = ["derive"] }
rand = "0.8"
walkdir = "*"
zip = { version = "*", default-features = false, features = ["aes-crypto", "deflate"] }
