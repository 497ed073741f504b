[package]
name = "mvengine"
version = "0.1.0"
edition = "2021"
publish = false

[dependencies]
gl = "=0.14.0"
glutin = "=0.32.3"
hashbrown = "=0.17.1"
log = "=0.4.34"
winit = "*"
