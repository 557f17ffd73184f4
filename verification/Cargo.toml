[package]
name = "neothesia"
version = "0.1.0"
edition = "2021"
publish = false

[dependencies]
euclid = "=0.22.14"
smallvec = "=1.16.4"
thunderdome = "=0.6.1"
midly = "=0.5.3"
lilt = "*"
async-channel = "*"
