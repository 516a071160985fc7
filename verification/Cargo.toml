[package]
name = "pipe_typer"
version = "0.1.0"
edition = "2021"
publish = false

[dependencies]
vec1 = "*"
