[package]
name = "outbound"
version = "0.1.0"
edition = "2021"
publish = false

[dependencies]
futures = "=0.1.31"
http = "=0.1.21"
rand = "=0.4.6"
tower = "=0.1.1"
tower-buffer = "=0.1.2"
tower-discover = "=0.1.0"
