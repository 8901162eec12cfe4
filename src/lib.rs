//! Embedding and extracting signed capability claims in WebAssembly modules.
//!
//! A module carries its claims in a custom section. The claims record a
//! digest of the module's code, data and other custom sections, so that a
//! loader can tell whether the module was altered after signing.

pub mod errors;
pub mod jwt;
pub mod sections;
pub mod hash;
pub mod wasm;
