[package]
name = "geotiff"
version = "0.1.0"
edition = "2021"
publish = false

[dependencies]
geo-types = "0.7"
tiff = "0.9"
