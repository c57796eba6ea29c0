[package]
name = "nucleo-f401re"
version = "0.1.0"
edition = "2021"
publish = false

[dependencies]
stm32f4xx-hal = { version = "0.9", features = ["stm32f401"] }
embedded-hal = { version = "0.2", features = ["unproven"] }
