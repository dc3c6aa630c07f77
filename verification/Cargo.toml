[package]
name = "session_launcher"
version = "0.1.0"
edition = "2021"
publish = false

[dependencies]
ctrlc = "*"
fork = "*"
rustyline = "*"
zellij-utils = "*"
