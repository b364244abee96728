[package]
name = "staged_key_package"
version = "0.1.0"
edition = "2021"
publish = false

[dependencies]
openmls_traits = "=0.6.0"
openmls_rust_crypto = "=0.6.0"
openmls_basic_credential = "=0.6.0"
tls_codec = { version = "=0.5.0", features = ["mls"] }
