[package]
name = "wayland"
version = "0.1.0"
edition = "2021"
publish = false

[dependencies]
quick-xml = "0.38"
syn = { version = "2", features = ["full"] }
proc-macro2 = "1"
quote = "1"
thiserror = "2"
