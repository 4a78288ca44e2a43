[package]
name = "render_core"
version = "0.1.0"
edition = "2021"
publish = false

[dependencies]
gltf = "=1.4.1"
windows = { version = "=0.48.0", features = [
    "Win32_Foundation",
    "Win32_Graphics_Direct3D",
    "Win32_Graphics_Direct3D11",
    "Win32_Graphics_Dxgi",
    "Win32_Graphics_Dxgi_Common",
    "Win32_Graphics_Gdi",
    "Win32_System_LibraryLoader",
    "Win32_UI_WindowsAndMessaging",
] }
