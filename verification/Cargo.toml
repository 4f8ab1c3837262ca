[package]
name = "fsr_sdk"
version = "0.1.0"
edition = "2021"
publish = false

[dependencies]
libloading = "*"
windows = { version = "0.62", features = ["Win32_Graphics_Direct3D", "Win32_Graphics_Direct3D12", "Win32_Graphics_Dxgi_Common"] }
