[package]
name = "pwacc"
version = "0.1.0"
edition = "2021"
publish = false

[dependencies]
regex = "1"
clap = { version = "4", features = ["derive"] }
once_cell = "1"
pipewire = "0.8"
libspa = "0.8"
libspa-sys = "0.8"
pipewire-sys = "0.8"
