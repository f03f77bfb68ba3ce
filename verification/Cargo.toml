[package]
name = "heap_handle"
version = "0.1.0"
edition = "2021"
publish = false

[dependencies]
heapsize = "*"
