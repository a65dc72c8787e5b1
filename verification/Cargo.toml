[package]
name = "magnifier_ball"
version = "0.1.0"
edition = "2021"
publish = false

[dependencies]
eframe = { version = "0.29", default-features = false, features = ["default_fonts", "glow", "x11"] }
egui = { version = "0.29", default-features = false, features = ["default_fonts"] }
windows-sys = { version = "0.59", features = ["Win32_Foundation", "Win32_Graphics_Gdi", "Win32_UI_Input_KeyboardAndMouse", "Win32_UI_WindowsAndMessaging"] }
