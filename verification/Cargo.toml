[package]
name = "ws2812_pio"
version = "0.1.0"
edition = "2021"
publish = false

[dependencies]
cortex-m = "=0.7.9"
nb = "=1.1.0"
pio = "=0.3.0"
rp235x-hal = "=0.4.0"
smart-leds = "=0.4.0"
