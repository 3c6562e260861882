[package]
name = "rollback_shooter"
version = "0.1.0"
edition = "2021"
publish = false

[dependencies]
bitfield-rle = "=0.2.0"
bytemuck = { version = "=1.25.2", features = ["derive"] }
ggrs = "=0.9.4"
structopt = "=0.3.26"
