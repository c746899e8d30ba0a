//! Library for installing prebuilt command-line tool binaries: it merges
//! user configuration with a builtin registry of known tools, classifies a
//! downloaded release asset by its archive container format, and computes the
//! path of the executable that extraction produces.

pub mod config;
pub mod model;
pub mod sync;
pub mod text;
