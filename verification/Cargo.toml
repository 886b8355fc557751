[package]
name = "squads"
version = "0.1.0"
edition = "2021"
publish = false

[dependencies]
arrayref = "0.3"
borsh = "0.9"
num-derive = "0.3"
num-traits = "0.2"
solana-program = "1.18"
spl-associated-token-account = { version = "=1.0.5", features = ["no-entrypoint"] }
spl-token = { version = "3.5", features = ["no-entrypoint"] }
thiserror = "1.0"
