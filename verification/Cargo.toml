[package]
name = "launchpad_bootloader"
version = "0.1.0"
edition = "2021"
publish = false

[dependencies]
tockloader-proto = "=0.2.1"
embedded-serial = "=0.5.0"
embedded-hal = "=0.2.7"
lm4f120 = "=0.10.0"
