[package]
name = "ldap_test_server"
version = "0.1.0"
edition = "2021"
publish = false

[dependencies]
rcgen = "0.13"
portpicker = "0.1"
rand = "0.8"
url = "2"
tokio = { version = "1", features = ["process", "io-util", "net", "time", "rt", "fs", "signal", "macros"] }
tempfile = "3"
dircpy = "0.3"
clap = { version = "4", features = ["derive"] }
