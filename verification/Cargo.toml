[package]
name = "amm_sim_rs"
version = "0.1.0"
edition = "2021"
publish = false

[dependencies]
revm = { version = "14", default-features = false, features = ["std"] }
rand = "0.8"
rand_distr = "0.4"
rand_pcg = "0.3"
rayon = "1"
thiserror = "1"
pyo3 = "0.22"
