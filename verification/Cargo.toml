[package]
name = "losetup_container"
version = "0.1.0"
edition = "2021"
publish = false
