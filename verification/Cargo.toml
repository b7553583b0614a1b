[package]
name = "svm_sp1_test_lib"
version = "0.1.0"
edition = "2021"
publish = false

[dependencies]
solana-sdk = "~2.2"
sp1-zkvm = "4"
