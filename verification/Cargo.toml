[package]
name = "win_overlay"
version = "0.1.0"
edition = "2021"
publish = false

[dependencies]
winapi = { version = "0.3", features = ["d3d9", "d3d9caps", "d3d9types", "dwmapi", "errhandlingapi", "minwindef", "windef", "winerror", "wingdi", "winuser", "uxtheme"] }
