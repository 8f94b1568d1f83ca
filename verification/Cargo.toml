[package]
name = "inotify"
version = "0.1.0"
edition = "2021"
publish = false

[dependencies]
rustix = { version = "*", features = ["fs"] }
nix = { version = "*", features = ["inotify", "fs"] }

[dev-dependencies]
libc = "*"
