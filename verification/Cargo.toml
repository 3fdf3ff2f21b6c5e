[package]
name = "smplvm"
version = "0.1.0"
edition = "2021"
publish = false

[dependencies]
clap = { version = "4", features = ["derive"] }
inquire = "0.7"
rusttype = "0.9"
serde = { version = "1", features = ["derive"] }
softbuffer = "0.4"
thiserror = "1"
toml = "0.8"
winit = "0.29"
