[package]
name = "crs_tools"
version = "0.1.0"
edition = "2021"
publish = false

[dependencies]
crs-definitions = "=0.4.0"
proj4rs = { version = "=0.2.1", features = ["crs-definitions"] }
regex = "=1.13.1"
