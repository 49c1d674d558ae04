[package]
name = "constellation_display"
version = "0.1.0"
edition = "2021"
publish = false

[dependencies]
anyhow = "1"
async-stream = "0.3"
bytemuck = { version = "1", features = ["derive"] }
clap = { version = "4", default-features = false, features = ["std", "derive", "help", "usage", "error-context"] }
futures-core = "0.3"
glam = "0.27"
image = { version = "0.24", default-features = false, features = ["png", "jpeg"] }
pollster = "0.3"
prost = "0.12"
serde = { version = "1", features = ["derive"] }
serde_json = "1"
tokio = { version = "1", features = ["rt-multi-thread", "sync", "macros"] }
tonic = "0.11"
url = "2"
