[package]
name = "grpc_service"
version = "0.1.0"
edition = "2021"
publish = false

[dependencies]
http = "1"
http-body = "1"
tower-service = "0.3"
