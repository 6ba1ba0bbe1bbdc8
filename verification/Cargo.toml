[package]
name = "gpui_fbdev"
version = "0.1.0"
edition = "2021"
publish = false

[dependencies]
anyhow = "1"
calloop = "0.14.3"
futures = "0.3"
libc = "0.2"
log = "0.4"
raw-window-handle = "0.6"
uuid = "1"
