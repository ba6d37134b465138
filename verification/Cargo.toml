[package]
name = "swimming"
version = "0.1.1"
edition = "2021"
publish = false

[dependencies]
lock_pool = "=0.2.0"
ref_count = "=0.1.2"

[dev-dependencies]
futures = "=0.3.34"
