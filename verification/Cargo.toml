[package]
name = "nsm_phony"
version = "0.1.0"
edition = "2021"
publish = false

[dependencies]
aws-nitro-enclaves-nsm-api = "=0.5.2"
coset = "=0.4.2"
p384 = "=0.13.1"
rustls-webpki = { version = "=0.103.15", features = ["ring"] }
rustls-pki-types = "*"
x509-cert = "=0.2.5"
sha2 = { version = "=0.10.9", features = ["oid"] }
rand = "=0.8.8"
serde_bytes = "=0.11.19"

[dev-dependencies]
x509-cert = { version = "=0.2.5", features = ["builder"] }
