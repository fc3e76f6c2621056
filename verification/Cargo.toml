[package]
name = "geotypes"
version = "0.1.0"
edition = "2021"
publish = false

[dependencies]
geographiclib-rs = "*"
libm = "*"
bytemuck = "*"
thiserror = "*"
