[package]
name = "todo_core"
version = "0.1.0"
edition = "2021"
publish = false

[dependencies]
chrono = "0.4"
crossbeam-channel = "0.5"
