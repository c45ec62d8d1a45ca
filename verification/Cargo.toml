[package]
name = "mash"
version = "0.1.0"
edition = "2021"
publish = false

[dependencies]
anyhow = "1"
thiserror = "2"
log = "0.4"
clap = { version = "4", features = ["derive"] }
crossterm = "0.28"
ratatui = "0.29"
nix = { version = "0.29", features = ["mount", "user", "fs"] }
libc = "0.2"
filetime = "0.2"
wait-timeout = "0.2"
walkdir = "2"
xz2 = "0.1"
once_cell = "1"
