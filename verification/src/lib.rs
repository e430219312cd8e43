//! Argument-marshaling and output-interpretation layer for an external
//! econometric engine driven over a command-line / JSON-on-stdout protocol.
//!
//! The engine itself (estimation, sampling, test statistics) is an opaque
//! collaborator: this crate builds the exact argument vector for each
//! operation, decides how the engine is launched, classifies what comes back,
//! and extracts the JSON payload from possibly noisy output.

pub mod args;
pub mod arima;
pub mod bvar;
pub mod data;
pub mod digits;
pub mod error;
pub mod factor;
pub mod fevd;
pub mod gmm;
pub mod hd;
pub mod interpret;
pub mod irf;
pub mod lp;
pub mod nongaussian;
pub mod progress;
pub mod registry;
pub mod resolver;
pub mod test;
pub mod var;
