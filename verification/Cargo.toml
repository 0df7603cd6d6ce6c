[package]
name = "gotham_middleware_lapin"
version = "0.1.0"
edition = "2021"
publish = false

[dependencies]
futures = "=0.1.31"
gotham = "=0.2.1"
gotham_derive = "=0.2.1"
lapin-futures = "=0.24.1"
log = "=0.4.34"
tokio-core = "=0.1.18"
