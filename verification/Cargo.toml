[package]
name = "rustic_print"
version = "0.2.0"
edition = "2021"
publish = false

[dependencies]
crossterm = "*"
textwrap = "*"
