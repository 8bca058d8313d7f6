[package]
name = "imap_core"
version = "0.1.0"
edition = "2021"
publish = false

[dependencies]
async-imap = { version = "*", default-features = false, features = ["runtime-tokio"] }
base64 = "*"
futures = "*"
log = "*"
mail-parser = "*"
native-tls = "*"
tokio = { version = "*", default-features = false, features = ["net", "io-util"] }
tokio-native-tls = "*"
utf7-imap = "*"
