[package]
name = "shade_eval_print_loop"
version = "0.1.0"
edition = "2021"
publish = false

[dependencies]
glium = "=0.36.0"
image = { version = "=0.25.10", default-features = false, features = ["bmp", "dds", "exr", "ff", "gif", "hdr", "ico", "jpeg", "png", "pnm", "qoi", "tga", "tiff", "webp"] }
nalgebra = "=0.35.0"
notify = "=8.2.0"
rusttype = "=0.9.3"
steel-core = "=0.8.3"
steel-derive = "=0.8.3"
