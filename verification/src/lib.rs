//! A diagnostics pipeline: severity filtering, channel-based routing,
//! sink configuration, and one-shot process-wide installation.
//!
//! A caller hands the startup entry point one severity string. The severity
//! filter parses it, the composer derives a routing rule and the ordered sink
//! list, and the installer makes the realized pipeline the process-wide
//! diagnostics handle, exactly once per process.

pub mod channel;
pub mod errors;
pub mod pipeline;
pub mod route;
pub mod severity;
pub mod sink;
pub mod startup;
pub mod targets;
