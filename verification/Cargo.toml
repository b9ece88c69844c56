[package]
name = "reddsa"
version = "0.1.0"
edition = "2021"
publish = false

[dependencies]
blake2b_simd = "1"
group = "0.12"
pasta_curves = "0.4"
rand_core = "0.6"
thiserror = "1"
