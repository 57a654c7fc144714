[package]
name = "metrics_registry"
version = "0.1.0"
edition = "2021"
publish = false

[dependencies]
arc-swap = "*"
crossbeam-utils = "*"
im = "*"
parking_lot = "*"
