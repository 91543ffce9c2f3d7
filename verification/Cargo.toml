[package]
name = "nvme_bdev"
version = "0.1.0"
edition = "2021"
publish = false

[dependencies]
async-trait = "0.1"
io-uring = "0.6"
nix = { version = "0.26", features = ["ioctl"] }
zerocopy = "0.6"
