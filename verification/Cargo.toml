[package]
name = "blockifier"
version = "0.1.0"
edition = "2021"
publish = false

[dependencies]
starknet-types-core = "=0.2.4"
cairo-lang-starknet-classes = "=2.14.0"
cairo-native = "=0.8.0"
sierra-emu = "=0.8.0"
