[package]
name = "pywry"
version = "0.1.0"
edition = "2021"
publish = false

[dependencies]
serde_json = "=1.0.151"
urlencoding = "=2.1.3"
rand = "=0.8.8"
open = "=5.4.4"
mime_guess = "2"
