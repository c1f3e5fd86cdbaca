//! An opportunistic web-security scanner: the checks, how their findings are
//! merged and scored, and the probes they ask for.
pub mod laws;
pub mod models;
pub mod scanner;
pub mod text;
