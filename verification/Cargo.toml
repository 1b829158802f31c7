[package]
name = "nvdialog_rs"
version = "0.1.0"
edition = "2021"
publish = false

[dependencies]
nvdialog-sys = "*"
thiserror = "*"
