[package]
name = "md2image"
version = "0.1.0"
edition = "2021"
publish = false

[dependencies]
pulldown-cmark = "=0.13.6"
clap = { version = "=4.6.7", features = ["derive"] }
headless_chrome = "=1.0.22"
image = { version = "=0.25.10", default-features = false, features = ["png"] }
tempfile = "=3.27.0"
thiserror = "=2.0.21"
url = "=2.5.8"
which = "=8.0.6"
