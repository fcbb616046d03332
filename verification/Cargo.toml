[package]
name = "reward_ledger"
version = "0.1.0"
edition = "2021"
publish = false

[dependencies]
ic-stable-structures = "*"
candid = "*"
ic-cdk = "*"
ic-cdk-macros = "*"
icrc-ledger-types = "*"
junobuild-satellite = "*"
junobuild-macros = "*"
serde = { version = "1", features = ["derive"] }
serde_json = "1"
