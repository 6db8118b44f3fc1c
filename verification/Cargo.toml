[package]
name = "dramasim"
version = "0.1.0"
edition = "2021"
publish = false

[dependencies]
mexprp = { version = "0.3", default-features = false }
gtk = "0.9"
gio = "0.9"
