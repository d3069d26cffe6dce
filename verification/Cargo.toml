[package]
name = "landlord"
version = "0.1.0"
edition = "2021"
publish = false

[dependencies]
anchor-lang = "0.25.0"
anchor-spl = { version = "0.25.0", default-features = false, features = ["token", "associated_token"] }
mpl-token-metadata = { version = "1.2.7", features = ["no-entrypoint"] }
base64 = "0.13.0"
borsh = "0.9.3"
arrayref = "0.3.6"
