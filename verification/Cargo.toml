[package]
name = "tremor_script"
version = "0.1.0"
edition = "2021"
publish = false

[dependencies]
distance = "=0.4.0"
lalrpop-util = { version = "=0.16.3", default-features = false }
