[package]
name = "lkfs"
version = "0.1.0"
edition = "2021"
publish = false

[dependencies]
rustc_apfloat = "*"
libm = "*"
bytemuck = "*"
dasp = "*"
sampara = "*"

[dev-dependencies]
approx = "*"
