[package]
name = "terrain_streaming"
version = "0.1.0"
edition = "2021"
publish = false

[dependencies]
cgmath = "=0.18.0"
gl = "=0.14.0"
log = "0.4"
num = "=0.4.3"
rand = "=0.4.6"
