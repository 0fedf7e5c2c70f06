[package]
name = "crust"
version = "0.1.0"
edition = "2021"
publish = false
rust-version = "1.95"

[dependencies]
annotate-snippets = "=0.11.5"
proc-macro2 = { version = "=1.0.107", features = ["span-locations"] }
quote = "=1.0.47"
syn = { version = "=2.0.119", features = ["full"] }
