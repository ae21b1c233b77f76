[package]
name = "urd"
version = "0.1.0"
edition = "2021"
publish = false

[dependencies]
rand = { version = "=0.8.8", features = ["small_rng"] }
stm32f1xx-hal = { version = "=0.10.0", features = ["stm32f103", "medium"] }
cortex-m = "=0.7.9"
ds323x = "=0.5.1"
