[package]
name = "deferred_table"
version = "0.1.0"
edition = "2021"
publish = false

[dependencies]
egui = { version = "0.32", default-features = false }
log = "0.4"
