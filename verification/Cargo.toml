[package]
name = "better_control"
version = "0.1.0"
edition = "2021"
publish = false

[dependencies]
gtk4 = "*"
libadwaita = "*"
glib = "*"
tokio = { version = "1", features = ["rt-multi-thread", "macros"] }
sysinfo = "*"
nix = { version = "*", features = ["fs"] }
battery = "*"
