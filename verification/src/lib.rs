//! Declarative installer core for third-party content modules: resolves a
//! source descriptor into cache paths and archive names, extracts archives
//! with glob-driven file selection, copies files from local origins with
//! path-safety checks, and plans the per-module install pipeline.

pub mod args;
pub mod errors;
pub mod extractor;
pub mod fsops;
pub mod gen_mod;
pub mod get_module;
pub mod installer;
pub mod location;
pub mod lowercase;
pub mod manifest;
pub mod origins;
pub mod pathutil;
pub mod settings;
pub mod strutil;
pub mod tp2;

pub use errors::InstallError;
