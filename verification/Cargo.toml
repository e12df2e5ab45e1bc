[package]
name = "shmem_utils"
version = "0.1.0"
edition = "2021"
publish = false

[dependencies]
superslice = "*"
nix = { version = "*", features = ["mman", "process", "feature"] }
libc = "*"
lock_api = "*"
parking_lot = "*"
once_cell = "*"
snafu = "*"
log = "*"
