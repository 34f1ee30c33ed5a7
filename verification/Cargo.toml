[package]
name = "tiny_morse"
version = "0.1.0"
edition = "2021"
publish = false

[dependencies]
cortex-m = "0.7"
embedded-hal = "0.2"
rp-pico = "0.7"
usb-device = "0.2"
usbd-serial = "0.1"
