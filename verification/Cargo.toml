[package]
name = "sol_parser_sdk"
version = "0.1.0"
edition = "2021"
publish = false

[dependencies]
base64-simd = "*"
bs58 = "*"
memchr = "*"
solana-sdk = "*"
spl-token = { version = "*", features = ["no-entrypoint"] }
spl-token-2022 = { version = "*", features = ["no-entrypoint"] }
