[package]
name = "window_clipboard"
version = "0.1.0"
edition = "2021"
publish = false

[dependencies]
clipboard_wayland = "*"
clipboard_x11 = "*"
raw-window-handle = "*"
