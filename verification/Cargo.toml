[package]
name = "crazy_train"
version = "0.1.0"
edition = "2021"
publish = false

[dependencies]
rand = "0.8"
serde_yaml = "0.9"
colored = "2"
duct_sh = "0.13"
thiserror = "1"
