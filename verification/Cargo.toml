[package]
name = "trusty_vsock"
version = "0.1.0"
edition = "2021"
publish = false

[dependencies]
num-integer = "0.1"
virtio-drivers = "*"
log = "0.4"
spin = "0.9"
lazy_static = "1"
bitflags = "2"
static_assertions = "1"
virtio-drivers-and-devices = "*"
