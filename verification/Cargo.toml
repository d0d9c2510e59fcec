[package]
name = "daw_dsp"
version = "0.1.0"
edition = "2021"
publish = false

[dependencies]
rusty-daw-core = "*"
rustc_apfloat = "*"
bytemuck = "*"
