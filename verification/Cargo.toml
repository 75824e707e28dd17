[package]
name = "commit_suggest"
version = "0.1.0"
edition = "2021"
publish = false
