//! Startup pieces of an off-chain service: typed loading of JSON
//! configuration, and the order in which a server process is brought up.

pub mod bootstrap;
pub mod decode;
pub mod deployment;
pub mod hex;
pub mod hex_array;
pub mod json;
pub mod loader;
