[package]
name = "stu"
version = "0.1.0"
edition = "2021"
publish = false

[dependencies]
textwrap = "0.16"
ratatui = "0.26"
crossterm = "0.27"
