[package]
name = "sip2_gateway"
version = "0.1.0"
edition = "2021"
publish = false

[dependencies]
sip2 = "*"
threadpool = "*"
json = "*"
getopts = "*"
