//! Interactive project scaffolding and build orchestration for native
//! (C / C++ / GPU-kernel) projects driven by an external build-system
//! generator.
//!
//! The crate models the persistent project configuration document, the
//! rules that derive a concrete generator name from stored or partial
//! data, and the algorithm that predicts where a finished build placed
//! the produced executable.

pub mod cli;
pub mod config;
pub mod exepath;
pub mod flows;
pub mod generator;
pub mod platform;
pub mod scaffold;
pub mod strings;
