[package]
name = "sandpiper"
version = "0.1.0"
edition = "2021"
publish = false

[dependencies]
rand = "=0.8.5"
rand_distr = "=0.4.3"
statrs = "=0.16.1"
quadrature = "=0.1.2"
average = "=0.16.0"
easy-cast = "=0.5.4"
rayon = "=1.10.0"

[dev-dependencies]
rand_pcg = "=0.3.1"
