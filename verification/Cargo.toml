[package]
name = "steamwig"
version = "0.1.0"
edition = "2021"
publish = false

[dependencies]
clap = { version = "*", features = ["derive"] }
csv = "*"
powershell_script = "*"
tempfile = "*"
winapi = { version = "*", features = ["winuser", "windef"] }
