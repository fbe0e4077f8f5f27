[package]
name = "axdriver_vsock"
version = "0.1.0"
edition = "2021"
publish = false

[dependencies]
axdriver_base = "=0.2.0"
virtio-drivers = { version = "=0.7.5", default-features = false, features = ["alloc"] }
