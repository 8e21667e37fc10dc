[package]
name = "laundry"
version = "0.1.0"
edition = "2021"
publish = false

[dependencies]
chrono = "=0.4.45"
kankyo = "*"
serenity = "0.8"
sysfs_gpio = "*"
typemap = "*"
