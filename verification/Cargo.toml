[package]
name = "evm_machine"
version = "0.1.0"
edition = "2021"
publish = false

[dependencies]
bytes = "1"
primitive-types = "*"
revm-bytecode = "1.0.0"
revm-primitives = "16.0.0"
