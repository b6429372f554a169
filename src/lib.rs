//! Reproducible, isolated command environments built from a Nix flake or a
//! devenv definition, with a build cache keyed by the definition files.

pub mod cache;
pub mod cli;
pub mod config;
pub mod deps;
pub mod digest;
pub mod environment;
pub mod error;
pub mod isolation;
pub mod json;
pub mod parse;
pub mod profile;
pub mod sandbox;
pub mod session;
pub mod text;
pub mod vars;
