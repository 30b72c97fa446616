[package]
name = "stm32_peripherals"
version = "0.1.0"
edition = "2021"

[dependencies]
anyhow = "=1.0.104"
unicorn-engine = "=2.0.1"
