[package]
name = "nphysics_testbed3d"
version = "0.1.0"
edition = "2021"
publish = false

[dependencies]
kiss3d = "=0.32.0"
nalgebra = "=0.29.0"
ncollide3d = "=0.32.0"
nphysics3d = "=0.24.0"
rand = "=0.8.8"
rand_xorshift = "=0.3.0"
