[package]
name = "leopard"
version = "0.1.0"
edition = "2021"
publish = false

[dependencies]
clap = "4"
libc = "0.2"
libloading = "0.8"
tabwriter = "1"
