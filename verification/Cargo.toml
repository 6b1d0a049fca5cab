[package]
name = "ripdrag"
version = "0.1.0"
edition = "2021"
publish = false

[dependencies]
clap = { version = "4", features = ["derive"] }
gio = "*"
glib = "*"
glib-macros = "*"
gtk4 = "*"
opener = "*"
