[package]
name = "clockwork"
version = "0.1.0"
edition = "2021"
publish = false

[dependencies]
route-recognizer = "=0.1.13"
url = "=2.5.8"
percent-encoding = "=2.3.2"
