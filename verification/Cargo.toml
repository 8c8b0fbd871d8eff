[package]
name = "spookylock"
version = "0.1.0"
edition = "2021"
publish = false

[dependencies]
libc = "0.2"
pam = "0.7"
termion = "*"
clap = { version = "4", features = ["derive"] }
cursive = { version = "0.20", default-features = false, features = ["termion-backend"] }
