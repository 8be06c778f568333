[package]
name = "sigma_racer_sidearm"
version = "0.1.0"
edition = "2021"
publish = false

[dependencies]
dbc-rs = "=0.6.0"
cortex-m = "=0.7.10"
embassy-time = "=0.5.1"
