[package]
name = "mime_icons"
version = "0.1.0"
edition = "2021"
publish = false

[dependencies]
image = { version = "*", default-features = false, features = ["png"] }
mime_guess = "*"
xdg-mime = "*"
