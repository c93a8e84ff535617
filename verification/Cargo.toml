[package]
name = "masl_pipeline"
version = "0.1.0"
edition = "2021"
publish = false

[dependencies]
anyhow = "=1.0.104"
miden-objects = { version = "=0.12.4", default-features = false }
miden-lib = { version = "=0.12.4", default-features = false }
