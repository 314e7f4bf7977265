[package]
name = "emul8"
version = "0.1.0"
edition = "2021"
publish = false

[dependencies]
rand = "0.7"
clap = "2"
pest = "2"
pest_derive = "2"
