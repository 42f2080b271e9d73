[package]
name = "remote_blinky"
version = "0.1.0"
edition = "2021"
publish = false

[dependencies]
cortex-m = "*"
cortex-m-rt = "*"
embedded-hal = "*"
nb = "*"
nrf52840-hal = "*"
nrf52840-pac = "*"
panic-rtt-target = "*"
rtt-target = "*"
