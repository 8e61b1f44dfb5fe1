[package]
name = "ps2_keyboard"
version = "0.1.0"
edition = "2021"
publish = false

[dependencies]
pc-keyboard = "=0.7.0"
x86_64 = { version = "=0.15.5", default-features = false, features = ["instructions"] }
kspin = "=0.1.1"
axlog = "=0.3.0-preview.3"
axfs_vfs = "=0.1.2"
axfs_devfs = "=0.1.2"
axfs_ramfs = "=0.1.2"
