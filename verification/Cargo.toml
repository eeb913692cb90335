[package]
name = "omni_box"
version = "0.1.0"
edition = "2021"
publish = false

[dependencies]
k256 = "0.13"
sha3 = "0.10"
tiny-keccak = { version = "2", features = ["keccak"] }
ripemd = "0.1"
bs58 = "0.5"
bitcoin = "0.32"
serde_json = "1"
