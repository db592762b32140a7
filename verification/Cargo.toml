[package]
name = "xcolor"
version = "0.1.0"
edition = "2021"
publish = false

[dependencies]
xcb = { version = "0.9", features = ["xlib_xcb"] }
x11 = { version = "2", features = ["xlib", "xcursor"] }
