[package]
name = "xp_tlk"
version = "0.1.0"
edition = "2021"
publish = false

[dependencies]
nwn-lib-rs = "=0.1.2"
log = "=0.4.34"
flexi_logger = "=0.31.10"
git-version = "=0.3.9"
