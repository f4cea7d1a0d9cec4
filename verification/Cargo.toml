[package]
name = "my_matrix_lib"
version = "0.1.0"
edition = "2021"
publish = false

[dependencies]
float-cmp = "0.9"
