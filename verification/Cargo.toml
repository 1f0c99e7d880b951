[package]
name = "allegro_dialog"
version = "0.1.0"
edition = "2021"
publish = false

[dependencies]
allegro = "*"
allegro_dialog-sys = "*"
libc = "0.2"
