[package]
name = "swap_contract"
version = "1.1.0"
edition = "2021"
publish = false

[dependencies]
injective-math = "=0.2.4"
primitive-types = { version = "=0.12.2", default-features = false }
injective-cosmwasm = "=0.2.24"
injective-protobuf = "=0.2.2"
protobuf = "=2.28.0"
cosmwasm-std = "=2.3.6"
cosmwasm-schema = "=2.3.6"
cw-storage-plus = "=2.0.0"
cw2 = "=2.0.0"
serde-json-wasm = "=1.0.1"
thiserror = "=1.0.69"
