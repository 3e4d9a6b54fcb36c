[package]
name = "nft_marketplace"
version = "0.1.0"
edition = "2021"
publish = false

[dependencies]
cosmwasm-std = "1.5"
cosmwasm-schema = "1.5"
cw-storage-plus = "1.2"
cw-utils = "1.0"
cw721 = "0.18"
cw721-base = "0.18"
sg-std = "3"
sg1 = "3"
sg721 = "3"
sg721-base = "3"
sg-controllers = "3"
thiserror = "1"
