//! Verified core of the UVL variant-generation macros.

pub mod names;
pub mod features;
pub mod evaluation;
pub mod json;
pub mod manifest;
pub mod macros;
pub mod builtins;
