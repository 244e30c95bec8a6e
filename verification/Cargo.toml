[package]
name = "sni_proxy"
version = "0.1.0"
edition = "2021"
publish = false

[dependencies]
httparse = "1"
rustls = "0.18"
mio = { version = "0.7", features = ["os-poll", "tcp"] }
log = "0.4"
simplelog = "0.8"
dotenv = "0.15"
regex = "1"
x509-parser = "0.8"
libloading = "0.6"
strfmt = "0.1"
rand = "0.7"
mysql = "18"
reqwest = { version = "0.10", features = ["blocking", "cookies"] }
