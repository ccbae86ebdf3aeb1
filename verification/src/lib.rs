//! Dispatch of proof verification: which verifier runs, with which public
//! parameters, in which order, and what is reported at the end.

pub mod command;
pub mod file_names;
pub mod paths;
pub mod report;
pub mod scheme;
pub mod session;
