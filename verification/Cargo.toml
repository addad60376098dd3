[package]
name = "tilt_matrix"
version = "0.1.0"
edition = "2021"
publish = false

[dependencies]
embedded-hal = "=0.2.7"
smart-leds = "0.3"
micromath = "=2.1.0"
cortex-m = "=0.7.10"
cortex-m-rt = "=0.7.7"
adafruit-feather-rp2040 = "=0.8.0"
ws2812-pio = "0.8"
