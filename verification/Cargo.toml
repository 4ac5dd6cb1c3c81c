[package]
name = "polymorph"
version = "0.1.0"
edition = "2021"
publish = false

[dependencies]
dyn-clone = "1"

[dev-dependencies]
downcast-rs = "1"
fastrand = "1"
