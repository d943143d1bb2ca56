[package]
name = "interactive_html_bom"
version = "0.1.0"
edition = "2021"

[dependencies]
lz-str = "*"
