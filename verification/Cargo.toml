[package]
name = "uniproc"
version = "0.1.0"
edition = "2021"
publish = false

[dependencies]
heck = "0.5"
syn = { version = "2", features = ["full"] }
quote = "1"
proc-macro2 = "1"
anyhow = "1"
tracing = "0.1"
