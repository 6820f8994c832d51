[package]
name = "compiler_linker"
version = "0.1.0"
edition = "2021"
publish = false

[dependencies]
owo-colors = "=4.4.0"
structopt = "=0.3.26"
