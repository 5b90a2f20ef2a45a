[package]
name = "chunk_executor"
version = "0.1.0"
edition = "2021"
publish = false

[dependencies]
anyhow = "=1.0.104"
fail = "=0.5.1"
itertools = "=0.10.5"
move-core-types = "=0.0.3"
once_cell = "=1.21.4"
rayon = "=1.12.0"
