[package]
name = "mars"
version = "0.1.0"
edition = "2021"
publish = false

[dependencies]
ash = "=0.32.1"
log = "0.4"
nalgebra = "=0.32.6"
raw-window-handle = "=0.3.4"
thiserror = "=1.0.69"
