//! Namespace virtualization for one embedded interpreter: isolated
//! environments over a shared, script-read-only base namespace, an active
//! environment, and per-call environment overrides.

pub mod value;
pub mod namespace;
pub mod model;
pub mod host;
pub mod laws;
