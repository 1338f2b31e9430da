[package]
name = "pptx2html_core"
version = "0.1.0"
edition = "2021"
publish = false

[dependencies]
base64 = "0.22"
