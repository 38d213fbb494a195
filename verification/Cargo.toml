[package]
name = "hart_cs"
version = "0.1.0"
edition = "2021"
publish = false

[dependencies]
critical-section = { version = "*", features = ["restore-state-usize"] }
