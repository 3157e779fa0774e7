[package]
name = "blinky"
version = "0.1.0"
edition = "2021"
publish = false

[dependencies]
cortex-m = "*"
cortex-m-rt = "*"
stm32f0xx-hal = { version = "*", features = ["stm32f051"] }
