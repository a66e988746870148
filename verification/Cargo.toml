[package]
name = "led_ring"
version = "0.1.0"
edition = "2021"
publish = false

[dependencies]
cortex-m = "0.6"
cortex-m-rtfm = "0.5"
heapless = "0.5"
panic-halt = "0.2"
stm32f3xx-hal = { version = "0.5", features = ["stm32f303xc", "rt"] }
