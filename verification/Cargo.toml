[package]
name = "airlang"
version = "0.1.0"
edition = "2021"
publish = false

[dependencies]
num-bigint = "0.4"
num-traits = "0.2"
rand = "0.9"
log = "0.4"
const_format = "0.2"
