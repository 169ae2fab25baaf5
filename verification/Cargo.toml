[package]
name = "localman"
version = "0.1.0"
edition = "2021"
publish = false

[dependencies]
serde = { version = "=1.0.229", features = ["derive"] }
serde_json = "=1.0.154"
dirs = "=6.0.0"
iced = { version = "=0.13.1", default-features = false, features = ["tiny-skia", "tokio"] }
rfd = { version = "=0.15.4", default-features = false, features = ["xdg-portal", "tokio"] }
