[package]
name = "modbus_prizm230"
version = "0.1.0"
edition = "2021"
publish = false

[dependencies]
clap = "2"
modbus = "*"
serial = "0.4"
time = "0.1"
