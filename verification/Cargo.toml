[package]
name = "hdmi-hal-i2c-dev"
version = "0.1.0"
edition = "2021"
publish = false

[dependencies]
hdmi-hal = "=0.4.0"
display-types = "=0.3.1"
i2cdev = "=0.6.2"
libc = "=0.2.191"
