[package]
name = "sbpf_conformance"
version = "0.1.0"
edition = "2021"
publish = false

[dependencies]
solana-sdk = "=2.1.21"
solana-compute-budget = "=2.1.21"
solana-runtime-transaction = "=2.1.21"
solana-svm-transaction = "=2.1.21"
solana-program-runtime = "=2.1.21"
solana-bpf-loader-program = "=2.1.21"
