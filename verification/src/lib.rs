//! Setup lifecycle orchestration for named audio interfaces and shapes.
//!
//! The crate decides where the primary configuration (audio interfaces and
//! data directories) is read from, models it together with the setup
//! descriptor (one interface plus an ordered list of shapes), and computes
//! the ordered activation and deactivation sequence for a setup, including
//! the policy applied when a step fails.

pub mod config;
pub mod errors;
pub mod laws;
pub mod orchestrator;
pub mod resolve;
pub mod run;
pub mod setup;
pub mod table;
pub mod text;
