//! Self-update, supervision and liveness engine for a managed proxy executable.
pub mod archive;
pub mod config;
pub mod identity;
pub mod paths;
pub mod supervisor;
pub mod text;
pub mod version;
