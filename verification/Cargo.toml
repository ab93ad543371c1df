[package]
name = "ronsole"
version = "0.1.0"
edition = "2021"
publish = false

[dependencies]
arboard = "*"
bytemuck = "*"
glow = "*"
glutin = "*"
glutin-winit = "*"
libc = "0.2"
memmap2 = "*"
regex = "1"
resvg = "*"
rustc-hash = "2"
swash = "*"
tiny-skia = "*"
unicode-width = "0.2"
winit = "0.30"
