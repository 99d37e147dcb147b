[package]
name = "kernel"
version = "0.1.0"
edition = "2021"
publish = false

[dependencies]
miniz_oxide = "=0.8.9"
png-decoder = "=0.2.0"
rapid-qoi = "=0.6.3"
zune-jpeg = "=0.5.15"
