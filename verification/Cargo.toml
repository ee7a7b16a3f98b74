[package]
name = "st7789_pio"
version = "0.1.0"
edition = "2021"
publish = false

[dependencies]
pio = "0.2"
cortex-m = "0.7"
embedded-hal = "1.0"
rp-pico = "0.9"
defmt = "0.3"
defmt-rtt = "0.4"
panic-probe = "0.3"
