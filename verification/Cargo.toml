[package]
name = "module_loader"
version = "0.1.0"
edition = "2021"
publish = false

[dependencies]
sugar_path = "*"
