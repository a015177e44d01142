[package]
name = "uic_ticket"
version = "0.1.0"
edition = "2021"
publish = false

[dependencies]
chrono = "0.4"
der = { version = "0.7", features = ["alloc"] }
digest = "0.10"
dsa = "0.6"
ecdsa = "0.16"
ed25519-dalek = { version = "2", features = ["pkcs8"] }
miniz_oxide = "0.8"
num-bigint = "0.4"
p256 = { version = "0.13", features = ["ecdsa", "pkcs8"] }
pem = "3"
rasn = "*"
sha1 = "0.10"
sha2 = "0.10"
signature = "2"
spki = "0.7"

[dev-dependencies]
binrw = "*"
modular-bitfield = "*"
