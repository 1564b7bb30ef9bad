//! A dynamic service registry and reverse proxy: the registry, the rules of its
//! HTTP interface and of its command line.

pub mod daemon;
pub mod inputs;
pub mod json;
pub mod laws;
pub mod text;
