[package]
name = "geotraverse"
version = "0.1.0"
edition = "2021"
publish = false

[dependencies]
rayon = "*"
geojson = "*"
geo = "*"
geo-types = "*"
serde_json = "*"
