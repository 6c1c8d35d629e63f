[package]
name = "gif_that_for_you"
version = "0.1.0"
edition = "2021"
publish = false

[dependencies]
glib = "*"
gtk4 = "*"
serde_json = "1"
