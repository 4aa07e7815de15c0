[package]
name = "mini_ncn"
version = "0.1.0"
edition = "2021"
publish = false

[dependencies]
anchor-lang = { version = "=0.31.2", features = ["init-if-needed"] }
anchor-spl = { version = "=0.31.2", default-features = false, features = ["associated_token", "idl-build", "mint", "token", "token_2022"] }
jito-restaking-client = { version = "=0.0.5", default-features = false }
jito-vault-client = { version = "=0.0.5", default-features = false }
