[package]
name = "usb_host"
version = "0.1.0"
edition = "2021"
publish = false

[dependencies]
arrayvec = "0.7"
bitvec = "1"
usb-dfu-target = "*"
embassy-futures = "0.1"
embassy-sync = "*"
embassy-time = "*"
