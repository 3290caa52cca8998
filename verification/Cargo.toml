[package]
name = "account"
version = "0.1.0"
edition = "2021"
publish = false

[dependencies]
candid = "*"
ic-cdk = "*"
ic-ledger-types = "*"
icrc-ledger-types = "*"
ic-stable-structures = "*"
serde = { version = "*", features = ["derive"] }
serde_bytes = "*"
serde_cbor = "*"
strum_macros = "*"
