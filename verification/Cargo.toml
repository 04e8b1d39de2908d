[package]
name = "xim_session"
version = "0.1.0"
edition = "2021"
publish = false

[dependencies]
anyhow = "=1.0.104"
log = "=0.4.34"
x11rb = "=0.13.2"
xim = { version = "=0.5.0", features = ["x11rb-client", "x11rb-xcb"] }
