//! Findings about out-of-date dependencies, located in a package manifest.

pub mod cli;
pub mod invoker;
pub mod manifest;
pub mod response;
pub mod run;
pub mod text;
