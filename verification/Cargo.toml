[package]
name = "news_gather"
version = "0.1.0"
edition = "2021"
publish = false

[dependencies]
fantoccini = "0.19"
futures = "0.3"
html2md = "0.2"
regex = "1"
