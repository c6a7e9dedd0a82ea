[package]
name = "sgpu"
version = "0.1.0"
edition = "2021"
publish = false

[dependencies]
ash = "0.38"
gpu-allocator = "0.27"
raw-window-handle = "0.6"
slotmap = "1"
smallvec = "1"
