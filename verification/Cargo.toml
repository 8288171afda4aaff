[package]
name = "arena_programs"
version = "0.1.0"
edition = "2021"
publish = false

[dependencies]
anchor-lang = "=0.29.0"
solana-program = "1.16"
gpl-session = "=2.0.0"
soar-cpi = "=0.1.4"
