[package]
name = "emv"
version = "0.1.0"
edition = "2021"
publish = false

[dependencies]
hex = "0.4"
pcsc = "2"
structopt = "0.3"
termion = "*"
