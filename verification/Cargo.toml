[package]
name = "erltop"
version = "0.1.0"
edition = "2021"
publish = false

[dependencies]
anyhow = "*"
crossterm = "0.25"
dirs = "*"
erl_dist = "*"
erl_rpc = "*"
futures = "*"
log = "*"
smol = "*"
tui = "0.19"
