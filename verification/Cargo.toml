[package]
name = "pump-poly"
version = "0.1.0"
edition = "2021"
publish = false

[dependencies]
anchor-lang = "=0.29.0"
anchor-spl = { version = "=0.29.0", default-features = false, features = ["mint", "token", "token_2022"] }
bytemuck = { version = "=1.25.2", features = ["extern_crate_alloc"] }
pyth-sdk-solana = "=0.9.0"
