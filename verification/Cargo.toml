[package]
name = "grust_gio"
version = "0.1.0"
edition = "2021"
publish = false

[dependencies]
libc = "=0.2.191"
grust = "=0.3.2"
gio-2-0-sys = "=0.46.4"
glib-2-0-sys = "=0.46.4"
gobject-2-0-sys = "=0.46.4"
