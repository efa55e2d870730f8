[package]
name = "rhai_demo"
version = "0.1.0"
edition = "2021"
publish = false

[dependencies]
rhai = { version = "=1.27.0", default-features = false, features = ["std", "no_time", "no_module", "no_float", "no_function"] }
ckb-std = "=1.1.0"
