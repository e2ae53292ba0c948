[package]
name = "tray_wrapper"
version = "0.1.0"
edition = "2021"
publish = false

[dependencies]
image = { version = "*", default-features = false, features = ["png"] }
thiserror = "*"
tokio = { version = "*", features = ["rt-multi-thread"] }
tray-icon = "*"
winit = "*"
