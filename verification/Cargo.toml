[package]
name = "clipd"
version = "0.1.0"
edition = "2021"
publish = false

[dependencies]
anyhow = "=1.0.104"
clap = { version = "=4.6.7", features = ["derive"] }
x11-clipboard = "=0.9.3"
x11rb = { version = "=0.13.2", features = ["xfixes"] }
