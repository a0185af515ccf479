[package]
name = "contract_chain"
version = "0.1.0"
edition = "2021"
publish = false

[dependencies]
wasmer = "=7.4.2"
sha256 = "=1.6.0"
chrono = "=0.4.45"
