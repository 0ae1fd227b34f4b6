[package]
name = "trading_bot"
version = "0.1.0"
edition = "2021"
publish = false

[dependencies]
binance = "0.21"
log = "0.4"
simplelog = "0.12"
dotenv = "0.15"
ta-lib-wrapper = "*"
