[package]
name = "enigma_runtime"
version = "0.1.0"
edition = "2021"
publish = false

[dependencies]
wasmi = "=0.4.1"
serde_json = "=1.0.154"
leveldb = "=0.8.6"
db-key = "=0.0.5"
failure = "=0.1.8"
sgx_types = "=1.1.2"
