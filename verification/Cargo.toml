[package]
name = "wry"
version = "0.1.0"
edition = "2021"
publish = false

[dependencies]
http = "=1.5.0"
url = "=2.5.8"
sha2 = "=0.10.9"
base64 = "=0.21.7"
kuchiki = "=0.8.1"
html5ever = "=0.25.2"
dunce = "1"
