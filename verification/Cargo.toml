[package]
name = "sitegen"
version = "0.1.0"
edition = "2021"
publish = false

[dependencies]
minifier = { version = "=0.4.0", features = ["html"] }
pulldown-cmark = "=0.13.4"
gloo-utils = "=0.3.0"
yew = "=0.23.0"
yew-router = "=0.20.0"
