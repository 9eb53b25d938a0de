[package]
name = "rusty_hangulclock"
version = "0.1.0"
edition = "2021"
publish = false

[dependencies]
smart-leds = "0.4"
chrono = "0.4"
anyhow = "1"
log = "0.4"
lazy_static = "1"
once_cell = "1"
futures = "0.3"
embassy-time = "*"
embedded-hal = "1"
embedded-hal-async = "1"
embedded-graphics = "*"
embedded-svc = "*"
esp-idf-svc = "*"
sh1106 = "*"
ws2812-spi = "*"
apa102-spi = "*"
rotary-encoder-hal = "*"
