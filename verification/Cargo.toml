[package]
name = "qnicknamebot"
version = "0.1.0"
edition = "2021"
publish = false

[dependencies]
regex = "1"
getopts = "0.2"
slack = "*"
