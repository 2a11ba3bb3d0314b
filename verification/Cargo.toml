[package]
name = "screen_grabber"
version = "0.1.0"
edition = "2021"
publish = false

[dependencies]
druid = "=0.8.3"
druid-shell = "=0.8.3"
image = { version = "=0.24.9", default-features = false, features = ["png"] }
imageproc = { version = "=0.23.1", default-features = false }

[dev-dependencies]
keyboard-types = "=0.6.2"
