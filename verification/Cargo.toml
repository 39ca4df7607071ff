[package]
name = "rui"
version = "0.1.0"
edition = "2021"
publish = false

[dependencies]
font8x8 = "0.3"
linked_list_allocator = "*"
x86_64 = { version = "*", default-features = false, features = ["instructions"] }
