[package]
name = "place_canvas"
version = "0.1.0"
edition = "2021"
publish = false

[dependencies]
image = { version = "0.25", default-features = false, features = ["png"] }
tokio = { version = "1", features = ["full"] }
axum = { version = "0.7", features = ["ws"] }
async-channel = "2"
futures-util = "0.3"
clap = { version = "4", features = ["derive"] }
