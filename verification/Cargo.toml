[package]
name = "sev_core"
version = "0.1.0"
edition = "2021"
publish = false

[dependencies]
sha2 = "=0.11.0"
hmac = "=0.13.0"
aes = "=0.9.3"
ctr = "=0.10.1"
p384 = "=0.14.0"
rdrand = "=0.9.0"
rand_core = "=0.10.1"
