[package]
name = "life"
version = "0.1.0"
edition = "2021"
publish = false

[dependencies]
rand = "*"
gtk = "*"
gdk = "*"
cairo-rs = "*"
