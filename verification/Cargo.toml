[package]
name = "cart_pendulum"
version = "0.1.0"
edition = "2021"
publish = false

[dependencies]
cortex-m = "*"
cortex-m-rt = "*"
defmt = "0.3"
defmt-rtt = "=0.4.2"
embedded-hal = "=0.2.7"
embedded-time = "=0.12.1"
l298n = "=0.2.0"
panic-probe = "*"
stm32f3xx-hal = { version = "=0.6.1", features = ["stm32f303xc", "rt"] }

[dev-dependencies]
rotary-encoder-hal = "=0.5.0"
