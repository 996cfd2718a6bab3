[package]
name = "polaroid"
version = "0.1.0"
edition = "2021"
publish = false

[dependencies]
image = { version = "0.24", default-features = false, features = ["gif", "png"] }
chrono = "0.4"
directories = "4"
tokio = { version = "1", features = ["rt-multi-thread", "time"] }
glutin = "0.28"
glm = "0.2"
raw-window-handle = "0.4"
takeable-option = "0.5"
windows = { version = "0.32", features = ["Win32_Foundation", "Win32_Graphics_Gdi", "Win32_UI_WindowsAndMessaging"] }
