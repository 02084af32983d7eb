[package]
name = "win_task_dialog"
version = "0.1.0"
edition = "2021"
publish = false

[dependencies]
widestring = "1"
