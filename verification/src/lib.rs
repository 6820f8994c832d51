//! Link creation rules for a small command-line tool: which kind of link the
//! caller asked for, how a junction's reparse-point buffer is laid out, and in
//! which order the platform is asked to create the junction.

pub mod error;
pub mod junction;
pub mod link_type;
pub mod reparse;
pub mod report;
pub mod wide;
