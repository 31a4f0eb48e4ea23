[package]
name = "redshift"
version = "0.1.0"
edition = "2021"
publish = false

[dependencies]
eframe = { version = "0.22", default-features = false, features = ["default_fonts", "glow"] }
image = { version = "=0.24.9", default-features = false, features = ["ico"] }
once_cell = "1"
pixels = "0.12"
serde = { version = "1", features = ["derive"] }
serde_json = "1"
winapi = { version = "=0.3.9", features = ["winuser", "windef"] }
winit = "=0.28.7"
winreg = "0.50"
