[package]
name = "crazymouse"
version = "0.1.0"
edition = "2021"
publish = false

[dependencies]
crazyflie-link = "=0.5.1"
hex = "=0.4.3"
uinput = { version = "=0.1.3", default-features = false }
