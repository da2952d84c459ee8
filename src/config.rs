//! The engine's settings and the proxy's settings document.
pub mod app;
pub mod document;
pub mod server;
pub mod xray;
