[package]
name = "pomky"
version = "0.1.0"
edition = "2021"
publish = false

[dependencies]
gdk = "0.17"
gtk = "0.17"
once_cell = "1"
serde = "1"
serde_derive = "1"
serde_json = "1"
sysinfo = "0.29"
