[package]
name = "kiero"
version = "0.1.0"
edition = "2021"
publish = false

[dependencies]
winapi = { version = "0.3", features = ["winuser", "libloaderapi", "d3d9", "d3d9types", "d3d11", "d3dcommon", "dxgi", "dxgiformat", "dxgitype", "minwindef", "ntdef", "windef"] }
