[package]
name = "gem"
version = "0.1.0"
edition = "2021"
publish = false

[dependencies]
volatile = "=0.2.7"
spin = "=0.9.9"
lazy_static = "=1.5.1"
pic8259 = "=0.11.0"
x86_64 = "=0.15.5"
