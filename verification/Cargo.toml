[package]
name = "freeradius"
version = "0.1.0"
edition = "2021"
publish = false

[dependencies]
error-chain = { version = "0.12.4", default-features = false }
num = "0.4.3"
num-derive = "0.4.2"
num-traits = "0.2"
quick-error = "1.2.3"
try_from = "0.3.2"
