[package]
name = "usbd_picotool_reset"
version = "0.1.0"
edition = "2021"
publish = false

[dependencies]
usb-device = "*"
rp2040-hal = "*"
