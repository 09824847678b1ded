[package]
name = "trove"
version = "0.1.0"
edition = "2021"
publish = false

[dependencies]
avr-device = { version = "=0.5.4", features = ["atmega32u4"] }
lock_api = "=0.4.14"
usb-device = "0.3"
usbd-hid = "0.7"

[dev-dependencies]
bitfield = "=0.14.0"
