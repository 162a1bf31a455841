[package]
name = "tere"
version = "0.1.0"
edition = "2021"
publish = false

[dependencies]
clap = "2"
crossterm = "0.25"
home = "0.5"
