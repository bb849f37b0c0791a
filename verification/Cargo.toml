[package]
name = "fan_control"
version = "0.1.0"
edition = "2021"
publish = false

[dependencies]
smart-leds = "=0.4.0"
ws2812-spi = "=0.5.1"
hd44780-driver = "=0.4.0"
embedded-hal = "=0.2.7"
cortex-m = "=0.7.10"
cortex-m-rt = "=0.7.7"
stm32f4xx-hal = { version = "=0.23.0", features = ["stm32f411"] }
panic-halt = "=1.0.0"
