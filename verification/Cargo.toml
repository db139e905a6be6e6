[package]
name = "translate"
version = "0.1.1"
edition = "2021"
publish = false

[dependencies]
hound = "3.5"
