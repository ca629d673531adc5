[package]
name = "psp_net"
version = "0.1.0"
edition = "2021"
publish = false

[dependencies]
base64 = "=0.23.1"
dns-protocol = { version = "=0.1.2", default-features = false }
embedded-io = "=0.6.1"
embedded-nal = "=0.9.0"
embedded-tls = { version = "=0.17.0", default-features = false }
httparse = "=1.10.1"
psp = "=0.3.14"
rand = { version = "0.8", default-features = false }
rand_chacha = { version = "=0.3.1", default-features = false }
regex = "=1.13.1"
thiserror = "=2.0.21"
