[package]
name = "block_copy_command"
version = "0.1.0"
edition = "2021"
publish = false

[dependencies]
pgrx = { version = "=0.17.0", features = ["pg17"] }
