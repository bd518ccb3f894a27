[package]
name = "fuse3"
version = "0.1.0"
edition = "2021"
publish = false

[dependencies]
bincode = "1.3"
nix = { version = "0.27", features = ["fs", "mount", "socket", "uio", "user", "process"] }
libc = "0.2"
bytes = "1"
futures-util = { version = "0.3", features = ["sink"] }
futures-channel = { version = "0.3", features = ["sink"] }
async-std = "1"
tracing = "0.1"
async-trait = "0.1"
which = "4"
slab = "0.4"
