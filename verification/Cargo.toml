[package]
name = "fpga_netlist"
version = "0.1.0"
edition = "2021"
publish = false

[dependencies]
capnp = "*"
flate2 = "1"
