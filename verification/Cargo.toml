[package]
name = "sysinfo_cli"
version = "0.1.0"
edition = "2021"
publish = false

[dependencies]
clap = { version = "=4.6.7", features = ["derive"] }
figlet-rs = "=0.1.5"
sysinfo = { version = "=0.33.1", default-features = false, features = ["system", "disk", "network"] }
termion = "=4.0.6"
