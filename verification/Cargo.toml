[package]
name = "rusty_vban"
version = "0.1.0"
edition = "2021"
publish = false

[dependencies]
anyhow = "1"
byteorder = "1"
dasp_sample = "0.11"
ringbuf = "0.3"
