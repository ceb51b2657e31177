[package]
name = "kml_rhi"
version = "0.1.0"
edition = "2021"
publish = false

[dependencies]
ash = "=0.38.0"
log = "=0.4.34"
