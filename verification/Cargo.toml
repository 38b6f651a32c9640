[package]
name = "minic"
version = "0.1.0"
edition = "2021"
publish = false

[dependencies]
ariadne = "*"
chumsky = "0.9"
clap = { version = "*", features = ["derive"] }
