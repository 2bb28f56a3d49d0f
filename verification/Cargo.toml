[package]
name = "grandma"
version = "0.1.0"
edition = "2021"
publish = false

[dependencies]
pointcloud = "=0.2.0"
protobuf = "=2.28.0"
