[package]
name = "wise_liquidity"
version = "0.1.0"
edition = "2021"
publish = false

[dependencies]
casper-types = "1.5"
casper-contract = "1.4"
casperlabs-contract-utils = "*"
casperlabs-erc20 = "*"
hex = "0.4"
num-traits = "0.2"
renvm-sig = "*"
