[package]
name = "tls_reload"
version = "0.1.0"
edition = "2021"
publish = false

[dependencies]
p256 = "0.13"
ring = "=0.16.20"
webpki = "=0.22.4"
x509-cert = "=0.2.5"

[dev-dependencies]
rcgen = "=0.11.3"
