[package]
name = "vec3"
version = "0.1.0"
edition = "2021"
publish = false

[dependencies]
rustc_apfloat = "=0.2.3+llvm-462a31f5a5ab"
libm = "=0.2.16"
bytemuck = "=1.25.2"
num-traits = "=0.2.19"
