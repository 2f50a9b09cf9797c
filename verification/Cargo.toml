[package]
name = "tibs"
version = "0.1.0"
edition = "2021"
publish = false

[dependencies]
freedesktop_entry_parser = "=2.0.1"
drm = "=0.14.1"
gbm = "=0.18.0"
glutin = "=0.32.3"
raw-window-handle = "=0.6.2"
nix = "=0.31.3"
